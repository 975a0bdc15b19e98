//! Text cleaning, page splitting, file naming and ordering for a local OCR and corpus
//! tool: the logic of its three commands (`forge`, `destiny`, `quozart7`).

pub mod altdizi;
pub mod belge;
pub mod clie;
pub mod destiny;
pub mod indi;
pub mod metin;
pub mod ondalik;
pub mod sayfa;
pub mod siralama;
pub mod storme;
pub mod temizlik;
pub mod uretim;
pub mod uzanti;
