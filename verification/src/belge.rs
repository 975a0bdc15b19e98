//! What the corpus (`forge`) and page-reading (`quozart7`) commands write: the raw text
//! of each document, the output file names, the Markdown documents and the report.

use vstd::prelude::*;
use crate::clie::{ceviri, Lang};
use crate::metin::{dizeye_cevir, karakterler, sona_ekle};
use crate::ondalik::{dort_haneli, dort_haneli_ekle, lemma_dort_haneli_birebir};
use crate::storme::{akademik_temiz, basliklar_atilmis, basliklari_sil, Storme};
use crate::uzanti::{belge_turu, belge_turunu_bul, BelgeTuru};

verus! {

broadcast use vstd::string::group_string_axioms;

/// The contents of an optional string.
pub open spec fn secenek_gorunumu(o: Option<String>) -> Option<Seq<char>> {
    match o {
        Some(m) => Some(m@),
        None => None,
    }
}

/// The output file name `<on_ek>_<sayac as four digits>.<uzanti>`.
pub open spec fn cikti_adi(on_ek: Seq<char>, sayac: nat, uzanti: Seq<char>) -> Seq<char> {
    on_ek + seq!['_'] + dort_haneli(sayac) + seq!['.'] + uzanti
}

/// Different counters give different output names, so no two documents of a run are
/// written to the same file.
pub proof fn lemma_cikti_adi_birebir(on_ek: Seq<char>, a: nat, b: nat, uzanti: Seq<char>)
    requires
        cikti_adi(on_ek, a, uzanti) == cikti_adi(on_ek, b, uzanti),
    ensures
        a == b,
{
    let da = dort_haneli(a);
    let db = dort_haneli(b);
    let x = cikti_adi(on_ek, a, uzanti);
    let y = cikti_adi(on_ek, b, uzanti);
    assert(x.len() == y.len());
    assert(da.len() == db.len());
    let bas = on_ek.len() + 1;
    assert(x.subrange(bas as int, (bas + da.len()) as int) =~= da);
    assert(y.subrange(bas as int, (bas + db.len()) as int) =~= db);
    lemma_dort_haneli_birebir(a, b);
}

/// The output file name `<on_ek>_<sayac as four digits>.<uzanti>`.
pub fn cikti_adi_olustur(on_ek: &str, sayac: usize, uzanti: &str) -> (r: String)
    ensures
        r@ == cikti_adi(on_ek@, sayac as nat, uzanti@),
{
    let mut ad = karakterler(on_ek);
    ad.push('_');
    dort_haneli_ekle(sayac, &mut ad);
    ad.push('.');
    let u = karakterler(uzanti);
    sona_ekle(&mut ad, &u);
    assert(ad@ =~= cikti_adi(on_ek@, sayac as nat, uzanti@));
    dizeye_cevir(&ad)
}

/// The message `[<baslik> <kaynak>]` that stands in for a document whose text is missing.
pub open spec fn isaretci(baslik: Seq<char>, kaynak: Seq<char>) -> Seq<char> {
    seq!['['] + baslik + seq![' '] + kaynak + seq![']']
}

/// The raw text `forge` takes from a document of kind `tur`: a text file's contents (empty
/// when it could not be read), a PDF's extracted text (or an error note), or for any other
/// file a pointer to it. `kaynak` is how the file's path is shown.
pub open spec fn forge_ham_metin(
    tur: BelgeTuru,
    metin_dosyasi: Option<Seq<char>>,
    pdf_metni: Option<Seq<char>>,
    kaynak: Seq<char>,
    dil: Lang,
) -> Seq<char> {
    match tur {
        BelgeTuru::Metin => match metin_dosyasi {
            Some(m) => m,
            None => Seq::empty(),
        },
        BelgeTuru::Pdf => match pdf_metni {
            Some(m) => m,
            None => isaretci(ceviri("pdf_extract_error"@, dil), kaynak),
        },
        _ => isaretci(ceviri("image_file_pointer"@, dil), kaynak),
    }
}

/// `[<baslik> <kaynak>]`.
fn isaretci_olustur(baslik: &str, kaynak: &str) -> (r: Vec<char>)
    ensures
        r@ == isaretci(baslik@, kaynak@),
{
    let mut r: Vec<char> = Vec::new();
    r.push('[');
    sona_ekle(&mut r, &karakterler(baslik));
    r.push(' ');
    sona_ekle(&mut r, &karakterler(kaynak));
    r.push(']');
    assert(r@ =~= isaretci(baslik@, kaynak@));
    r
}

/// The raw text `forge` takes from a document of kind `tur`, given what was read: the
/// text file's contents and the PDF's extracted text, each `None` when missing.
pub fn forge_ham_metni(
    tur: BelgeTuru,
    metin_dosyasi: Option<String>,
    pdf_metni: Option<String>,
    kaynak: &str,
    dil: Lang,
) -> (r: String)
    ensures
        r@ == forge_ham_metin(
            tur,
            secenek_gorunumu(metin_dosyasi),
            secenek_gorunumu(pdf_metni),
            kaynak@,
            dil,
        ),
{
    match tur {
        BelgeTuru::Metin => match metin_dosyasi {
            Some(m) => m,
            None => String::new(),
        },
        BelgeTuru::Pdf => match pdf_metni {
            Some(m) => m,
            None => dizeye_cevir(&isaretci_olustur(dil.t("pdf_extract_error"), kaynak)),
        },
        _ => dizeye_cevir(&isaretci_olustur(dil.t("image_file_pointer"), kaynak)),
    }
}

/// The cleaned text `forge` writes for the document named `ad`: its raw text, given the
/// text file's contents and the text extracted from the PDF (each `None` when missing or
/// failed), cleaned with the header and footer options.
pub fn forge_belgesi(
    ad: &str,
    metin_dosyasi: Option<String>,
    pdf_metni: Option<String>,
    kaynak: &str,
    dil: Lang,
    top: bool,
    strip_footers: bool,
) -> (r: String)
    ensures
        r@ == akademik_temiz(
            forge_ham_metin(
                belge_turu(ad@),
                secenek_gorunumu(metin_dosyasi),
                secenek_gorunumu(pdf_metni),
                kaynak@,
                dil,
            ),
            top,
            strip_footers,
        ),
{
    let tur = belge_turunu_bul(ad);
    let ham = forge_ham_metni(tur, metin_dosyasi, pdf_metni, kaynak, dil);
    Storme::akademik_temizle(ham.as_str(), top, strip_footers)
}

/// The Markdown document `forge` writes for a cleaned text.
pub open spec fn forge_markdown(dil: Lang, kaynak: Seq<char>, icerik: Seq<char>) -> Seq<char> {
    seq!['#', ' '] + ceviri("corpus_doc"@, dil) + seq!['\n', '-', ' '] + ceviri("md_source"@, dil)
        + seq![':', ' '] + kaynak + seq!['\n', '\n'] + icerik
}

/// The Markdown document `quozart7` writes for one page text; `taraf` says which page
/// (`sol`, `sag`) or that it was a plain text file.
pub open spec fn quozart_markdown(dil: Lang, kaynak: Seq<char>, taraf: Seq<char>, icerik: Seq<char>) -> Seq<
    char,
> {
    seq!['#', ' '] + ceviri("md_data"@, dil) + seq!['\n', '-', ' '] + ceviri("md_source"@, dil)
        + seq![':', ' '] + kaynak + seq!['\n', '-', ' '] + ceviri("md_mode"@, dil) + seq![':', ' ']
        + taraf + seq!['\n', '\n'] + icerik
}

/// The Markdown document `forge` writes for a cleaned text.
pub fn forge_markdown_olustur(dil: Lang, kaynak: &str, icerik: &str) -> (r: String)
    ensures
        r@ == forge_markdown(dil, kaynak@, icerik@),
{
    let mut r: Vec<char> = Vec::new();
    r.push('#');
    r.push(' ');
    sona_ekle(&mut r, &karakterler(dil.t("corpus_doc")));
    r.push('\n');
    r.push('-');
    r.push(' ');
    sona_ekle(&mut r, &karakterler(dil.t("md_source")));
    r.push(':');
    r.push(' ');
    sona_ekle(&mut r, &karakterler(kaynak));
    r.push('\n');
    r.push('\n');
    sona_ekle(&mut r, &karakterler(icerik));
    assert(r@ =~= forge_markdown(dil, kaynak@, icerik@));
    dizeye_cevir(&r)
}

/// The Markdown document `quozart7` writes for one page text.
pub fn quozart_markdown_olustur(dil: Lang, kaynak: &str, taraf: &str, icerik: &str) -> (r:
    String)
    ensures
        r@ == quozart_markdown(dil, kaynak@, taraf@, icerik@),
{
    let mut r: Vec<char> = Vec::new();
    r.push('#');
    r.push(' ');
    sona_ekle(&mut r, &karakterler(dil.t("md_data")));
    r.push('\n');
    r.push('-');
    r.push(' ');
    sona_ekle(&mut r, &karakterler(dil.t("md_source")));
    r.push(':');
    r.push(' ');
    sona_ekle(&mut r, &karakterler(kaynak));
    r.push('\n');
    r.push('-');
    r.push(' ');
    sona_ekle(&mut r, &karakterler(dil.t("md_mode")));
    r.push(':');
    r.push(' ');
    sona_ekle(&mut r, &karakterler(taraf));
    r.push('\n');
    r.push('\n');
    sona_ekle(&mut r, &karakterler(icerik));
    assert(r@ =~= quozart_markdown(dil, kaynak@, taraf@, icerik@));
    dizeye_cevir(&r)
}

/// The text `quozart7` keeps for one page read by the model: the text read, or on a
/// failure the note `[<label>: <error>]`, the label naming the left or right page.
pub open spec fn sayfa_metni(okunan: Result<Seq<char>, Seq<char>>, sag: bool, dil: Lang) -> Seq<
    char,
> {
    match okunan {
        Ok(m) => m,
        Err(e) => seq!['['] + ceviri(
            if sag {
                "right_page_error"@
            } else {
                "left_page_error"@
            },
            dil,
        ) + seq![':', ' '] + e + seq![']'],
    }
}

/// The text `quozart7` keeps for one page read by the model.
pub fn sayfa_metnini_al(okunan: Result<String, String>, sag: bool, dil: Lang) -> (r: String)
    ensures
        r@ == sayfa_metni(
            match okunan {
                Ok(m) => Ok(m@),
                Err(e) => Err(e@),
            },
            sag,
            dil,
        ),
{
    match okunan {
        Ok(m) => m,
        Err(e) => {
            let mut r: Vec<char> = Vec::new();
            r.push('[');
            let etiket = if sag {
                dil.t("right_page_error")
            } else {
                dil.t("left_page_error")
            };
            sona_ekle(&mut r, &karakterler(etiket));
            r.push(':');
            r.push(' ');
            sona_ekle(&mut r, &karakterler(e.as_str()));
            r.push(']');
            assert(r@ =~= sayfa_metni(Err(e@), sag, dil));
            dizeye_cevir(&r)
        },
    }
}

/// The contents of a page reading: the text, or the error message.
pub open spec fn okuma_gorunumu(o: Result<String, String>) -> Result<Seq<char>, Seq<char>> {
    match o {
        Ok(m) => Ok(m@),
        Err(e) => Err(e@),
    }
}

/// A page text as `quozart7` writes it: with `top`, its running header lines taken out
/// and the rest as it was read; otherwise as it was read.
pub open spec fn sayfa_temiz(t: Seq<char>, top: bool) -> Seq<char> {
    if top {
        basliklar_atilmis(t)
    } else {
        t
    }
}

/// The entry for one half of an image, when that half was read: its text and the side,
/// `sol` or `sag`.
pub open spec fn yari_sayfa(okunan: Option<Result<String, String>>, sag: bool, top: bool, dil: Lang) -> Seq<
    (Seq<char>, Seq<char>),
> {
    match okunan {
        Some(o) => seq![
            (
                sayfa_temiz(sayfa_metni(okuma_gorunumu(o), sag, dil), top),
                if sag {
                    "sag"@
                } else {
                    "sol"@
                },
            ),
        ],
        None => Seq::empty(),
    }
}

/// The pages `quozart7` writes for one file of kind `tur`, each as its text and its
/// side: a text file's contents (`duz_metin`) unless only images are taken (`jpg`), the
/// left then the right half of an image, and nothing for a PDF or any other file.
pub open spec fn sayfalar(
    tur: BelgeTuru,
    jpg: bool,
    top: bool,
    metin: Option<Seq<char>>,
    sol: Option<Result<String, String>>,
    sag: Option<Result<String, String>>,
    dil: Lang,
) -> Seq<(Seq<char>, Seq<char>)> {
    match tur {
        BelgeTuru::Metin => match metin {
            Some(t) if !jpg => seq![(sayfa_temiz(t, top), "duz_metin"@)],
            _ => Seq::empty(),
        },
        BelgeTuru::Gorsel => yari_sayfa(sol, false, top, dil) + yari_sayfa(sag, true, top, dil),
        _ => Seq::empty(),
    }
}

/// The contents of a list of text pairs.
pub open spec fn cift_gorunumu(v: Seq<(String, String)>) -> Seq<(Seq<char>, Seq<char>)> {
    v.map_values(|p: (String, String)| (p.0@, p.1@))
}

/// A page text as `quozart7` writes it, its running header lines taken out when `top`
/// is set.
fn sayfa_temizle(t: String, top: bool) -> (r: String)
    ensures
        r@ == sayfa_temiz(t@, top),
{
    if top {
        basliklari_sil(t.as_str())
    } else {
        t
    }
}

/// The pages `quozart7` writes for one file of kind `tur`, given what was read: a text
/// file's contents, and each half of an image as the model's text or its error. With
/// `jpg` only images give pages; with `top` every page loses its running header lines.
pub fn sayfa_listesi(
    tur: BelgeTuru,
    jpg: bool,
    top: bool,
    metin: Option<String>,
    sol: Option<Result<String, String>>,
    sag: Option<Result<String, String>>,
    dil: Lang,
) -> (r: Vec<(String, String)>)
    ensures
        cift_gorunumu(r@) == sayfalar(tur, jpg, top, secenek_gorunumu(metin), sol, sag, dil),
{
    let ghost metin0 = secenek_gorunumu(metin);
    let ghost sol0 = sol;
    let ghost sag0 = sag;
    let mut r: Vec<(String, String)> = Vec::new();
    match tur {
        BelgeTuru::Metin => {
            if !jpg {
                if let Some(t) = metin {
                    let temiz = sayfa_temizle(t, top);
                    r.push((temiz, dizeye_cevir(&karakterler("duz_metin"))));
                }
            }
        },
        BelgeTuru::Gorsel => {
            if let Some(o) = sol {
                let m = sayfa_metnini_al(o, false, dil);
                let temiz = sayfa_temizle(m, top);
                r.push((temiz, dizeye_cevir(&karakterler("sol"))));
            }
            assert(cift_gorunumu(r@) =~= yari_sayfa(sol0, false, top, dil));
            let ghost once = r@;
            if let Some(o) = sag {
                let m = sayfa_metnini_al(o, true, dil);
                let temiz = sayfa_temizle(m, top);
                r.push((temiz, dizeye_cevir(&karakterler("sag"))));
            }
            assert(cift_gorunumu(r@) =~= cift_gorunumu(once) + yari_sayfa(sag0, true, top, dil));
        },
        _ => {},
    }
    assert(cift_gorunumu(r@) =~= sayfalar(tur, jpg, top, metin0, sol0, sag0, dil));
    r
}

/// The report of a run: the files written, and the sources whose output failed.
pub struct Rapor {
    pub basarili: Vec<String>,
    pub basarisiz: Vec<String>,
}

impl Rapor {
    /// An empty report.
    pub fn yeni() -> (r: Rapor)
        ensures
            r.basarili@ == Seq::<String>::empty(),
            r.basarisiz@ == Seq::<String>::empty(),
    {
        Rapor { basarili: Vec::new(), basarisiz: Vec::new() }
    }

    /// Records the outcome of writing one document: when both the Markdown and the text
    /// file were written, their paths are listed as written; otherwise `kayit` is listed
    /// as failed. Returns whether both were written.
    pub fn sonuc_ekle(
        &mut self,
        md_yolu: String,
        txt_yolu: String,
        md_yazildi: bool,
        txt_yazildi: bool,
        kayit: String,
    ) -> (r: bool)
        ensures
            r == (md_yazildi && txt_yazildi),
            r ==> final(self).basarili@ == old(self).basarili@.push(md_yolu).push(txt_yolu),
            r ==> final(self).basarisiz@ == old(self).basarisiz@,
            !r ==> final(self).basarili@ == old(self).basarili@,
            !r ==> final(self).basarisiz@ == old(self).basarisiz@.push(kayit),
    {
        if md_yazildi && txt_yazildi {
            self.basarili.push(md_yolu);
            self.basarili.push(txt_yolu);
            true
        } else {
            self.basarisiz.push(kayit);
            false
        }
    }
}

/// Where `quozart7` stands in writing its page texts: the number the next page gets,
/// and the report so far. A page's number is used up only when both of its files were
/// written, so the written pages are numbered 1, 2, 3, ... without gaps: the report
/// always lists two files for each number used.
pub struct SayfaYazimi {
    sayac: usize,
    rapor: Rapor,
}

impl SayfaYazimi {
    /// Every written page took one number, two report entries each.
    #[verifier::type_invariant]
    spec fn gecerli(self) -> bool {
        self.sayac >= 1 && self.rapor.basarili.len() == 2 * (self.sayac - 1)
    }

    /// The number the next page gets.
    pub closed spec fn numara(self) -> nat {
        self.sayac as nat
    }

    /// The files written so far, two for each page.
    pub closed spec fn yazilanlar(self) -> Seq<String> {
        self.rapor.basarili@
    }

    /// The pages whose files could not be written.
    pub closed spec fn hatalar(self) -> Seq<String> {
        self.rapor.basarisiz@
    }

    /// Nothing written yet: the first page gets number 1.
    pub fn yeni() -> (r: SayfaYazimi)
        ensures
            r.numara() == 1,
            r.yazilanlar() == Seq::<String>::empty(),
            r.hatalar() == Seq::<String>::empty(),
    {
        SayfaYazimi { sayac: 1, rapor: Rapor::yeni() }
    }

    /// The number the next page gets; one more than the pages written, whose files the
    /// report lists two each.
    pub fn sayac(&self) -> (r: usize)
        ensures
            r == self.numara(),
            r >= 1,
            self.yazilanlar().len() == 2 * (r - 1),
    {
        proof {
            use_type_invariant(self);
        }
        self.sayac
    }

    /// The report of the run.
    pub fn rapor(self) -> (r: Rapor)
        ensures
            r.basarili@ == self.yazilanlar(),
            r.basarisiz@ == self.hatalar(),
    {
        proof {
            use_type_invariant(&self);
        }
        let SayfaYazimi { sayac: _, rapor } = self;
        rapor
    }

    /// The names of the Markdown and the text file of the next page.
    pub fn siradaki_adlar(&self, on_ek: &str) -> (r: (String, String))
        ensures
            r.0@ == cikti_adi(on_ek@, self.numara(), "md"@),
            r.1@ == cikti_adi(on_ek@, self.numara(), "txt"@),
    {
        (cikti_adi_olustur(on_ek, self.sayac, "md"), cikti_adi_olustur(on_ek, self.sayac, "txt"))
    }

    /// Records the outcome of writing the current page; the next page gets the next
    /// number only when both files were written. Returns whether they were.
    pub fn sonuc_ekle(
        &mut self,
        md_yolu: String,
        txt_yolu: String,
        md_yazildi: bool,
        txt_yazildi: bool,
        kayit: String,
    ) -> (r: bool)
        requires
            old(self).numara() < usize::MAX,
        ensures
            r == (md_yazildi && txt_yazildi),
            final(self).numara() == if r {
                old(self).numara() + 1
            } else {
                old(self).numara()
            },
            final(self).yazilanlar().len() == 2 * (final(self).numara() - 1),
            r ==> final(self).yazilanlar() == old(self).yazilanlar().push(md_yolu).push(txt_yolu),
            r ==> final(self).hatalar() == old(self).hatalar(),
            !r ==> final(self).yazilanlar() == old(self).yazilanlar(),
            !r ==> final(self).hatalar() == old(self).hatalar().push(kayit),
    {
        let mut eski = SayfaYazimi::yeni();
        std::mem::swap(self, &mut eski);
        proof {
            use_type_invariant(&eski);
        }
        let SayfaYazimi { sayac, mut rapor } = eski;
        let r = rapor.sonuc_ekle(md_yolu, txt_yolu, md_yazildi, txt_yazildi, kayit);
        let yeni_sayac = if r {
            sayac + 1
        } else {
            sayac
        };
        *self = SayfaYazimi { sayac: yeni_sayac, rapor };
        r
    }
}

/// The name of the report file: `<on_ek><son_ek>`, with `"_forge_report.json"` for
/// `forge` and `"_rapor.json"` for `quozart7`.
pub fn rapor_adi(on_ek: &str, son_ek: &str) -> (r: String)
    ensures
        r@ == on_ek@ + son_ek@,
{
    let mut ad = karakterler(on_ek);
    sona_ekle(&mut ad, &karakterler(son_ek));
    dizeye_cevir(&ad)
}

/// How `quozart7` lists a failed page: `<kaynak> (<taraf>)`.
pub fn quozart_hata_kaydi(kaynak: &str, taraf: &str) -> (r: String)
    ensures
        r@ == kaynak@ + seq![' ', '('] + taraf@ + seq![')'],
{
    let mut ad = karakterler(kaynak);
    ad.push(' ');
    ad.push('(');
    sona_ekle(&mut ad, &karakterler(taraf));
    ad.push(')');
    assert(ad@ =~= kaynak@ + seq![' ', '('] + taraf@ + seq![')']);
    dizeye_cevir(&ad)
}

} // verus!
