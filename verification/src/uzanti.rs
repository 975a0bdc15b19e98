//! File-name extensions: which part of a name is its extension (as `Path::extension`
//! defines it), lowercasing, and the document kinds that the commands accept.

use vstd::prelude::*;
use crate::metin::{dizeye_cevir, karakterler, metinle_ayni_mi};

verus! {

broadcast use vstd::string::group_string_axioms;

/// The lowercase form of `s` under Unicode case mapping, as `str::to_lowercase` computes it.
pub uninterp spec fn kucuk_harfli(s: Seq<char>) -> Seq<char>;

/// Whether every character of `s` is ASCII.
pub open spec fn ascii_metin(s: Seq<char>) -> bool {
    forall|k: int| 0 <= k < s.len() ==> (#[trigger] s[k] as u32) < 128
}

/// The ASCII lowercase of `c`: `A` to `Z` become `a` to `z`, anything else stays.
pub open spec fn ascii_kucuk(c: char) -> char {
    if 65 <= (c as u32) <= 90 {
        ((c as u32) + 32) as char
    } else {
        c
    }
}

/// The ASCII lowercase of every character of `s`.
pub open spec fn ascii_kucuk_harfli(s: Seq<char>) -> Seq<char> {
    s.map_values(|c: char| ascii_kucuk(c))
}

/// Calls `str::to_lowercase`: the result is the Unicode lowercase mapping of `s`, named
/// `kucuk_harfli`. Of that mapping only its ASCII part is stated (an ASCII text, the empty
/// one among them, lowercases letter by letter); the tables beyond ASCII are not written
/// out here.
#[verifier::external_body]
fn kucuk_harfe_cevir(s: &str) -> (r: String)
    ensures
        r@ == kucuk_harfli(s@),
        ascii_metin(s@) ==> r@ == ascii_kucuk_harfli(s@),
{
    s.to_lowercase()
}

/// An ASCII text has ASCII pieces.
proof fn lemma_ascii_parca(s: Seq<char>, a: int, b: int)
    requires
        ascii_metin(s),
        0 <= a <= b <= s.len(),
    ensures
        ascii_metin(s.subrange(a, b)),
{
    assert forall|k: int| 0 <= k < s.subrange(a, b).len() implies (#[trigger] s.subrange(
        a,
        b,
    )[k] as u32) < 128 by {
        assert(s.subrange(a, b)[k] == s[a + k]);
    }
}

/// The index of the last `'.'` in `ad`, or -1 when there is none.
pub open spec fn son_nokta(ad: Seq<char>) -> int
    decreases ad.len(),
{
    if ad.len() == 0 {
        -1
    } else if ad.last() == '.' {
        ad.len() - 1
    } else {
        son_nokta(ad.drop_last())
    }
}

/// The last `'.'` stands inside the name.
proof fn lemma_son_nokta_sinir(ad: Seq<char>)
    ensures
        -1 <= son_nokta(ad) < ad.len(),
    decreases ad.len(),
{
    if ad.len() > 0 && ad.last() != '.' {
        lemma_son_nokta_sinir(ad.drop_last());
    }
}

/// The extension of the file name `ad`: what follows its last `'.'`; none when the name
/// is `".."`, has no `'.'`, or its only `'.'` comes first (`".bashrc"`).
pub open spec fn dosya_uzantisi(ad: Seq<char>) -> Option<Seq<char>> {
    let k = son_nokta(ad);
    if ad == seq!['.', '.'] || k <= 0 {
        None
    } else {
        Some(ad.subrange(k + 1, ad.len() as int))
    }
}

/// The kind of a document, by its lowercased extension.
#[derive(Copy, Clone, PartialEq, Eq, Debug)]
pub enum BelgeTuru {
    /// `txt`
    Metin,
    /// `pdf`
    Pdf,
    /// `jpg` or `jpeg`
    Gorsel,
    /// anything else, or no extension
    Diger,
}

/// The lowercased extension of `ad`, empty when it has none.
pub open spec fn kucuk_uzanti(ad: Seq<char>) -> Seq<char> {
    match dosya_uzantisi(ad) {
        Some(u) => kucuk_harfli(u),
        None => kucuk_harfli(Seq::empty()),
    }
}

/// The lowercased extension of an ASCII name `ad`, empty when it has none.
pub open spec fn ascii_kucuk_uzanti(ad: Seq<char>) -> Seq<char> {
    match dosya_uzantisi(ad) {
        Some(u) => ascii_kucuk_harfli(u),
        None => Seq::empty(),
    }
}

/// The kind of the document named `ad`.
pub open spec fn belge_turu(ad: Seq<char>) -> BelgeTuru {
    uzanti_turu(kucuk_uzanti(ad))
}

/// The kind of a document whose lowercased extension is `u`.
pub open spec fn uzanti_turu(u: Seq<char>) -> BelgeTuru {
    if u == "txt"@ {
        BelgeTuru::Metin
    } else if u == "pdf"@ {
        BelgeTuru::Pdf
    } else if u == "jpg"@ || u == "jpeg"@ {
        BelgeTuru::Gorsel
    } else {
        BelgeTuru::Diger
    }
}

/// The index of the last `'.'` in `ad`, or `None`.
fn son_nokta_bul(ad: &Vec<char>) -> (r: Option<usize>)
    ensures
        r matches Some(k) ==> son_nokta(ad@) == k && k < ad.len(),
        r is None ==> son_nokta(ad@) == -1,
{
    let mut i: usize = ad.len();
    assert(ad@.take(i as int) == ad@);
    while i > 0
        invariant
            i <= ad.len(),
            son_nokta(ad@) == son_nokta(ad@.take(i as int)),
        decreases i,
    {
        assert(ad@.take(i as int).drop_last() == ad@.take(i - 1));
        if ad[i - 1] == '.' {
            return Some(i - 1);
        }
        i = i - 1;
    }
    None
}

/// The extension of the file name `ad`.
pub fn uzanti_bul(ad: &str) -> (r: Option<String>)
    ensures
        r matches Some(u) ==> dosya_uzantisi(ad@) == Some(u@),
        r is None ==> dosya_uzantisi(ad@) is None,
{
    let k = karakterler(ad);
    assert(k@.take(k.len() as int) == k@);
    let iki_nokta = k.len() == 2 && k[0] == '.' && k[1] == '.';
    assert(iki_nokta == (k@ == seq!['.', '.'])) by {
        if k@ == seq!['.', '.'] {
            assert(k@[0] == '.' && k@[1] == '.');
        }
        if iki_nokta {
            assert(k@ =~= seq!['.', '.']);
        }
    }
    match son_nokta_bul(&k) {
        Some(n) => {
            if iki_nokta || n == 0 {
                None
            } else {
                let mut u: Vec<char> = Vec::new();
                let mut i: usize = n + 1;
                while i < k.len()
                    invariant
                        n < i <= k.len(),
                        u@ == k@.subrange(n + 1, i as int),
                    decreases k.len() - i,
                {
                    u.push(k[i]);
                    assert(k@.subrange(n + 1, i + 1) == k@.subrange(n + 1, i as int).push(
                        k@[i as int],
                    ));
                    i = i + 1;
                }
                Some(dizeye_cevir(&u))
            }
        },
        None => None,
    }
}

/// The lowercased extension of the file name `ad`, empty when it has none.
pub fn kucuk_uzanti_bul(ad: &str) -> (r: String)
    ensures
        r@ == kucuk_uzanti(ad@),
        ascii_metin(ad@) ==> r@ == ascii_kucuk_uzanti(ad@),
{
    match uzanti_bul(ad) {
        Some(u) => {
            proof {
                if ascii_metin(ad@) {
                    lemma_ascii_uzanti(ad@);
                }
            }
            kucuk_harfe_cevir(u.as_str())
        },
        None => {
            proof {
                reveal_strlit("");
                assert(""@ =~= Seq::<char>::empty());
            }
            let r = kucuk_harfe_cevir("");
            assert(ascii_kucuk_harfli(Seq::<char>::empty()) =~= Seq::<char>::empty());
            r
        },
    }
}

/// The kind of the document named `ad`.
pub fn belge_turunu_bul(ad: &str) -> (r: BelgeTuru)
    ensures
        r == belge_turu(ad@),
        ascii_metin(ad@) ==> r == uzanti_turu(ascii_kucuk_uzanti(ad@)),
{
    let u = kucuk_uzanti_bul(ad);
    let k = karakterler(u.as_str());
    if metinle_ayni_mi(&k, "txt") {
        BelgeTuru::Metin
    } else if metinle_ayni_mi(&k, "pdf") {
        BelgeTuru::Pdf
    } else if metinle_ayni_mi(&k, "jpg") || metinle_ayni_mi(&k, "jpeg") {
        BelgeTuru::Gorsel
    } else {
        BelgeTuru::Diger
    }
}

/// The lowercased extensions that `forge` takes: `jpg`, `jpeg`, `pdf`, `txt` or `epub`.
pub open spec fn forge_uzantisi(u: Seq<char>) -> bool {
    u == "jpg"@ || u == "jpeg"@ || u == "pdf"@ || u == "txt"@ || u == "epub"@
}

/// The lowercased extensions that `quozart7` takes: `jpg`, `jpeg`, `pdf` or `txt`.
pub open spec fn quozart_uzantisi(u: Seq<char>) -> bool {
    u == "jpg"@ || u == "jpeg"@ || u == "pdf"@ || u == "txt"@
}

/// The files that `forge` takes: `jpg`, `jpeg`, `pdf`, `txt` or `epub`, in any case.
pub open spec fn forge_dosyasi(ad: Seq<char>) -> bool {
    dosya_uzantisi(ad) is Some && forge_uzantisi(kucuk_harfli(dosya_uzantisi(ad)->0))
}

/// The files that `quozart7` takes: `jpg`, `jpeg`, `pdf` or `txt`, in any case.
pub open spec fn quozart_dosyasi(ad: Seq<char>) -> bool {
    dosya_uzantisi(ad) is Some && quozart_uzantisi(kucuk_harfli(dosya_uzantisi(ad)->0))
}

/// Whether the ASCII name `ad` has an extension whose ASCII lowercase meets `p`.
pub open spec fn ascii_uzanti_uyar(ad: Seq<char>, p: spec_fn(Seq<char>) -> bool) -> bool {
    dosya_uzantisi(ad) is Some && p(ascii_kucuk_harfli(dosya_uzantisi(ad)->0))
}

/// The extension of an ASCII name is ASCII.
proof fn lemma_ascii_uzanti(ad: Seq<char>)
    requires
        ascii_metin(ad),
        dosya_uzantisi(ad) is Some,
    ensures
        ascii_metin(dosya_uzantisi(ad)->0),
{
    lemma_son_nokta_sinir(ad);
    lemma_ascii_parca(ad, son_nokta(ad) + 1, ad.len() as int);
}

/// Whether `forge` takes the file named `ad`.
pub fn forge_dosyasi_mi(ad: &str) -> (r: bool)
    ensures
        r == forge_dosyasi(ad@),
        ascii_metin(ad@) ==> r == ascii_uzanti_uyar(ad@, |u: Seq<char>| forge_uzantisi(u)),
{
    match uzanti_bul(ad) {
        Some(u) => {
            proof {
                if ascii_metin(ad@) {
                    lemma_ascii_uzanti(ad@);
                }
            }
            let k = karakterler(kucuk_harfe_cevir(u.as_str()).as_str());
            metinle_ayni_mi(&k, "jpg") || metinle_ayni_mi(&k, "jpeg") || metinle_ayni_mi(&k, "pdf")
                || metinle_ayni_mi(&k, "txt") || metinle_ayni_mi(&k, "epub")
        },
        None => false,
    }
}

/// Whether `quozart7` takes the file named `ad`.
pub fn quozart_dosyasi_mi(ad: &str) -> (r: bool)
    ensures
        r == quozart_dosyasi(ad@),
        ascii_metin(ad@) ==> r == ascii_uzanti_uyar(ad@, |u: Seq<char>| quozart_uzantisi(u)),
{
    match uzanti_bul(ad) {
        Some(u) => {
            proof {
                if ascii_metin(ad@) {
                    lemma_ascii_uzanti(ad@);
                }
            }
            let k = karakterler(kucuk_harfe_cevir(u.as_str()).as_str());
            metinle_ayni_mi(&k, "jpg") || metinle_ayni_mi(&k, "jpeg") || metinle_ayni_mi(&k, "pdf")
                || metinle_ayni_mi(&k, "txt")
        },
        None => false,
    }
}

/// Whether `ad` names a model weights file: its extension is exactly `safetensors`.
pub fn safetensors_mi(ad: &str) -> (r: bool)
    ensures
        r == (dosya_uzantisi(ad@) == Some("safetensors"@)),
{
    match uzanti_bul(ad) {
        Some(u) => {
            let k = karakterler(u.as_str());
            metinle_ayni_mi(&k, "safetensors")
        },
        None => false,
    }
}

/// The extension that `destiny` renames: the given one, lowercased, with every `'.'`
/// removed (so `".JPG"` becomes `"jpg"`).
pub fn hedef_uzanti(extension: &str) -> (r: String)
    ensures
        r@ == kucuk_harfli(extension@).filter(|c: char| c != '.'),
        ascii_metin(extension@) ==> r@ == ascii_kucuk_harfli(extension@).filter(
            |c: char| c != '.',
        ),
        !r@.contains('.'),
{
    let kucuk = kucuk_harfe_cevir(extension);
    let k = karakterler(kucuk.as_str());
    let mut sonuc: Vec<char> = Vec::new();
    let mut i: usize = 0;
    while i < k.len()
        invariant
            i <= k.len(),
            sonuc@ == k@.take(i as int).filter(|c: char| c != '.'),
        decreases k.len() - i,
    {
        proof {
            k@.take(i as int).lemma_filter_push(k@[i as int], |c: char| c != '.');
            assert(k@.take(i + 1) == k@.take(i as int).push(k@[i as int]));
        }
        if k[i] != '.' {
            sonuc.push(k[i]);
        }
        i = i + 1;
    }
    assert(k@.take(k.len() as int) == k@);
    assert forall|j: int| 0 <= j < sonuc@.len() implies sonuc@[j] != '.' by {
        k@.lemma_filter_pred(|c: char| c != '.', j);
    }
    dizeye_cevir(&sonuc)
}

/// `destiny` renames a file when its extension, lowercased, is the target extension.
pub open spec fn destiny_dosyasi(ad: Seq<char>, hedef: Seq<char>) -> bool {
    dosya_uzantisi(ad) is Some && kucuk_harfli(dosya_uzantisi(ad)->0) == hedef
}

/// Whether `destiny` renames the file named `ad` for the target extension `hedef`.
pub fn destiny_dosyasi_mi(ad: &str, hedef: &str) -> (r: bool)
    ensures
        r == destiny_dosyasi(ad@, hedef@),
        ascii_metin(ad@) ==> r == ascii_uzanti_uyar(ad@, |u: Seq<char>| u == hedef@),
{
    match uzanti_bul(ad) {
        Some(u) => {
            proof {
                if ascii_metin(ad@) {
                    lemma_ascii_uzanti(ad@);
                }
            }
            let k = karakterler(kucuk_harfe_cevir(u.as_str()).as_str());
            metinle_ayni_mi(&k, hedef)
        },
        None => false,
    }
}

/// `quozart7` takes a file exactly when it has an extension and is of a kind it reads: a
/// text file, a PDF or an image (`jpg` or `jpeg`), in any case.
pub proof fn lemma_quozart_turleri(ad: Seq<char>)
    ensures
        quozart_dosyasi(ad) <==> (dosya_uzantisi(ad) is Some && belge_turu(ad)
            != BelgeTuru::Diger),
{
}

/// `forge` takes every file `quozart7` takes, and EPUB files besides: a file with an
/// extension that is a text file, a PDF, an image or an EPUB.
pub proof fn lemma_forge_turleri(ad: Seq<char>)
    ensures
        forge_dosyasi(ad) <==> (quozart_dosyasi(ad) || (dosya_uzantisi(ad) is Some
            && kucuk_uzanti(ad) == "epub"@)),
        forge_dosyasi(ad) <==> (dosya_uzantisi(ad) is Some && (belge_turu(ad) != BelgeTuru::Diger
            || kucuk_uzanti(ad) == "epub"@)),
{
}

/// A document's kind follows its lowercased extension alone: `txt` is text, `pdf` is a
/// PDF, `jpg` and `jpeg` are images, anything else (no extension, `epub`, `png`, ...) is
/// none of these.
pub proof fn lemma_belge_turleri(ad: Seq<char>)
    ensures
        belge_turu(ad) == BelgeTuru::Metin <==> kucuk_uzanti(ad) == "txt"@,
        belge_turu(ad) == BelgeTuru::Pdf <==> kucuk_uzanti(ad) == "pdf"@,
        belge_turu(ad) == BelgeTuru::Gorsel <==> (kucuk_uzanti(ad) == "jpg"@ || kucuk_uzanti(ad)
            == "jpeg"@),
{
    reveal_strlit("txt");
    reveal_strlit("pdf");
    reveal_strlit("jpg");
    reveal_strlit("jpeg");
    assert("txt"@.len() == 3 && "pdf"@.len() == 3 && "jpg"@.len() == 3 && "jpeg"@.len() == 4);
    assert("txt"@[0] != "pdf"@[0] && "txt"@[0] != "jpg"@[0] && "pdf"@[0] != "jpg"@[0]);
}

} // verus!
