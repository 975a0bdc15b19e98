//! Cleaning of extracted book text: page numbers, running headers and footnotes are
//! dropped, and the remaining lines are gathered into paragraphs.

use vstd::prelude::*;
use crate::metin::{
    ascii_rakam, ascii_rakam_mi, bayt_uzunlugu, bayt_uzunlugu_kucuk_mu, birlestir,
    birlestirilmis, bosluk, bosluk_mu, dizeye_cevir, gorunum, icerir, icerir_mi,
    karakter_icerir_mi, karakterler, kelime_say, kelime_sayisi, kirp, kirpilmis, lemma_parcala_geri,
    parcala, parcalara_bol, satirlara_bol, satirlari,
};

verus! {

broadcast use vstd::string::group_string_axioms;

/// Text and page helpers used by the corpus and OCR commands.
pub struct Storme;

/// Whether `c` has the Unicode `Uppercase` property, as `char::is_uppercase` reports it.
pub uninterp spec fn buyuk_harf(c: char) -> bool;

/// Calls `char::is_uppercase`: the result is the Unicode `Uppercase` property of `c`,
/// named `buyuk_harf`. Of that property only its ASCII part is stated (among ASCII
/// characters, exactly `A` to `Z`); the table beyond ASCII is not written out here.
#[verifier::external_body]
fn buyuk_harf_mi(c: char) -> (r: bool)
    ensures
        r == buyuk_harf(c),
        (c as u32) < 128 ==> (r <==> 65 <= (c as u32) <= 90),
{
    c.is_uppercase()
}

/// Every character of `s` is a digit, whitespace, `'-'` or `'—'`.
pub open spec fn sayi_karakterleri(s: Seq<char>) -> bool {
    forall|k: int|
        0 <= k < s.len() ==> {
            let c = #[trigger] s[k];
            ascii_rakam(c) || bosluk(c) || c == '-' || c == '—'
        }
}

/// Every character of `s` is uppercase.
pub open spec fn tamami_buyuk(s: Seq<char>) -> bool {
    forall|k: int| 0 <= k < s.len() ==> #[trigger] buyuk_harf(s[k])
}

/// A bare page number such as `"12"` or `"- 4 -"`: digits, whitespace and dashes only,
/// shorter than 8 bytes.
pub open spec fn sayfa_numarasi(s: Seq<char>) -> bool {
    sayi_karakterleri(s) && bayt_uzunlugu(s) < 8
}

/// A running header: one of the first three or last three lines of the page, fewer than
/// six words, and either all uppercase or naming a chapter or section.
pub open spec fn sayfa_basligi(s: Seq<char>, i: int, toplam: int) -> bool {
    &&& (i < 3 || i > toplam - 4)
    &&& kelime_sayisi(s) < 6
    &&& (tamami_buyuk(s) || icerir(s, "Chapter"@) || icerir(s, "Bölüm"@) || icerir(s, "Section"@))
}

/// A footnote or note marker: `"[..]"` shorter than 30 bytes, or a line starting with a
/// digit and holding a `'.'`; either way shorter than 40 bytes.
pub open spec fn dipnot(s: Seq<char>) -> bool {
    &&& ((s.len() > 0 && s[0] == '[' && s.contains(']') && bayt_uzunlugu(s) < 30) || (s.len()
        > 0 && ascii_rakam(s[0]) && s.contains('.')))
    &&& bayt_uzunlugu(s) < 40
}

/// Whether the trimmed, non-empty line `s`, at index `i` of `toplam` lines, is dropped:
/// running headers go when `baslik` is set, page numbers and footnotes when `dip` is set.
pub open spec fn satir_atilir(s: Seq<char>, i: int, toplam: int, baslik: bool, dip: bool) -> bool {
    ||| (baslik && sayfa_basligi(s, i, toplam))
    ||| (dip && (sayfa_numarasi(s) || dipnot(s)))
}

/// After the first `n` lines: the finished paragraphs, and the kept lines of the
/// paragraph still open.
pub open spec fn paragraf_durumu(satirlar: Seq<Seq<char>>, n: nat, baslik: bool, dip: bool) -> (
    Seq<Seq<char>>,
    Seq<Seq<char>>,
)
    decreases n,
{
    if n == 0 {
        (Seq::empty(), Seq::empty())
    } else {
        let (bitti, acik) = paragraf_durumu(satirlar, (n - 1) as nat, baslik, dip);
        let s = kirp(satirlar[n - 1]);
        if s.len() == 0 {
            if acik.len() > 0 {
                (bitti.push(birlestir(acik, seq![' '])), Seq::empty())
            } else {
                (bitti, acik)
            }
        } else if satir_atilir(s, n - 1, satirlar.len() as int, baslik, dip) {
            (bitti, acik)
        } else {
            (bitti, acik.push(s))
        }
    }
}

/// The paragraphs of the cleaned text: each one the kept lines of a block, joined by
/// single spaces; blocks are separated by blank lines.
pub open spec fn paragraflar(satirlar: Seq<Seq<char>>, baslik: bool, dip: bool) -> Seq<Seq<char>> {
    let (bitti, acik) = paragraf_durumu(satirlar, satirlar.len(), baslik, dip);
    if acik.len() > 0 {
        bitti.push(birlestir(acik, seq![' ']))
    } else {
        bitti
    }
}

/// The cleaned text: its paragraphs separated by one blank line.
pub open spec fn akademik_temiz(metin: Seq<char>, baslik: bool, dip: bool) -> Seq<char> {
    birlestir(paragraflar(satirlari(metin), baslik, dip), seq!['\n', '\n'])
}

/// Whether `parca`, piece `i` of a text cut at `'\n'` whose lines number `toplam`, is a
/// running header: a non-blank line that `akademik_temiz` drops as a header.
pub open spec fn baslik_satiri(parca: Seq<char>, i: int, toplam: int) -> bool {
    kirp(parca).len() > 0 && sayfa_basligi(kirp(parca), i, toplam)
}

/// The first `n` pieces without the running headers among them, in order.
pub open spec fn basliksiz(parcalar: Seq<Seq<char>>, n: nat, toplam: int) -> Seq<Seq<char>>
    decreases n,
{
    if n == 0 {
        Seq::empty()
    } else {
        let onceki = basliksiz(parcalar, (n - 1) as nat, toplam);
        if baslik_satiri(parcalar[n - 1], n - 1, toplam) {
            onceki
        } else {
            onceki.push(parcalar[n - 1])
        }
    }
}

/// `metin` without its running header lines; every other line, and every line break
/// between the lines kept, stays as it was.
pub open spec fn basliklar_atilmis(metin: Seq<char>) -> Seq<char> {
    let p = parcala(metin);
    birlestir(basliksiz(p, p.len(), satirlari(metin).len() as int), seq!['\n'])
}

/// With no header line among them, all pieces are kept.
proof fn lemma_basliksiz_hepsi(parcalar: Seq<Seq<char>>, n: nat, toplam: int)
    requires
        n <= parcalar.len(),
        forall|i: int| 0 <= i < n ==> !baslik_satiri(#[trigger] parcalar[i], i, toplam),
    ensures
        basliksiz(parcalar, n, toplam) == parcalar.take(n as int),
    decreases n,
{
    if n > 0 {
        lemma_basliksiz_hepsi(parcalar, (n - 1) as nat, toplam);
        assert(!baslik_satiri(parcalar[n - 1], n - 1, toplam));
        assert(parcalar.take(n - 1).push(parcalar[n - 1]) =~= parcalar.take(n as int));
    } else {
        assert(parcalar.take(0) =~= Seq::<Seq<char>>::empty());
    }
}

/// A text without running header lines comes back unchanged.
pub proof fn lemma_baslik_yoksa_aynen(metin: Seq<char>)
    requires
        forall|i: int|
            0 <= i < parcala(metin).len() ==> !baslik_satiri(
                #[trigger] parcala(metin)[i],
                i,
                satirlari(metin).len() as int,
            ),
    ensures
        basliklar_atilmis(metin) == metin,
{
    let p = parcala(metin);
    lemma_basliksiz_hepsi(p, p.len(), satirlari(metin).len() as int);
    assert(p.take(p.len() as int) =~= p);
    lemma_parcala_geri(metin);
}

/// Whether every character of `s` is a digit, whitespace, `'-'` or `'—'`.
fn sayi_karakterleri_mi(s: &Vec<char>) -> (r: bool)
    ensures
        r == sayi_karakterleri(s@),
{
    let mut i: usize = 0;
    while i < s.len()
        invariant
            i <= s.len(),
            forall|k: int|
                0 <= k < i ==> {
                    let c = #[trigger] s@[k];
                    ascii_rakam(c) || bosluk(c) || c == '-' || c == '—'
                },
        decreases s.len() - i,
    {
        let c = s[i];
        if !(ascii_rakam_mi(c) || bosluk_mu(c) || c == '-' || c == '—') {
            return false;
        }
        i = i + 1;
    }
    true
}

/// Whether every character of `s` is uppercase.
fn tamami_buyuk_mu(s: &Vec<char>) -> (r: bool)
    ensures
        r == tamami_buyuk(s@),
{
    let mut i: usize = 0;
    while i < s.len()
        invariant
            i <= s.len(),
            forall|k: int| 0 <= k < i ==> #[trigger] buyuk_harf(s@[k]),
        decreases s.len() - i,
    {
        if !buyuk_harf_mi(s[i]) {
            return false;
        }
        i = i + 1;
    }
    true
}

/// The words that mark a heading line.
struct BaslikSozcukleri {
    chapter: Vec<char>,
    bolum: Vec<char>,
    section: Vec<char>,
}

/// Whether the trimmed, non-empty line `s` at index `i` of `toplam` lines is dropped.
fn satir_atilir_mi(
    s: &Vec<char>,
    i: usize,
    toplam: usize,
    baslik: bool,
    dip: bool,
    sozcukler: &BaslikSozcukleri,
) -> (r: bool)
    requires
        sozcukler.chapter@ == "Chapter"@,
        sozcukler.bolum@ == "Bölüm"@,
        sozcukler.section@ == "Section"@,
    ensures
        r == satir_atilir(s@, i as int, toplam as int, baslik, dip),
{
    let kenarda = i < 3 || i as u128 + 4 > toplam as u128;
    if baslik && kenarda && kelime_say(s) < 6 && (tamami_buyuk_mu(s) || icerir_mi(
        s,
        &sozcukler.chapter,
    ) || icerir_mi(s, &sozcukler.bolum) || icerir_mi(s, &sozcukler.section)) {
        return true;
    }
    if dip {
        if sayi_karakterleri_mi(s) && bayt_uzunlugu_kucuk_mu(s, 8) {
            return true;
        }
        let koseli = s.len() > 0 && s[0] == '[' && karakter_icerir_mi(s, ']')
            && bayt_uzunlugu_kucuk_mu(s, 30);
        let rakamli = s.len() > 0 && ascii_rakam_mi(s[0]) && karakter_icerir_mi(s, '.');
        if (koseli || rakamli) && bayt_uzunlugu_kucuk_mu(s, 40) {
            return true;
        }
    }
    false
}

/// The text with its running header lines taken out and everything else as it was: the
/// lines that `akademik_temizle` drops as headers when `strip_headers` is set.
pub fn basliklari_sil(metin: &str) -> (r: String)
    ensures
        r@ == basliklar_atilmis(metin@),
{
    let sozcukler = BaslikSozcukleri {
        chapter: karakterler("Chapter"),
        bolum: karakterler("Bölüm"),
        section: karakterler("Section"),
    };
    let k = karakterler(metin);
    let toplam = satirlara_bol(&k).len();
    let parcalar = parcalara_bol(&k);
    let ghost p = parcala(metin@);
    let mut kalan: Vec<Vec<char>> = Vec::new();
    let mut i: usize = 0;
    while i < parcalar.len()
        invariant
            i <= parcalar.len(),
            gorunum(parcalar@) == p,
            toplam == satirlari(metin@).len(),
            sozcukler.chapter@ == "Chapter"@,
            sozcukler.bolum@ == "Bölüm"@,
            sozcukler.section@ == "Section"@,
            gorunum(kalan@) == basliksiz(p, i as nat, toplam as int),
        decreases parcalar.len() - i,
    {
        let s = kirpilmis(&parcalar[i]);
        assert(parcalar@[i as int]@ == p[i as int]);
        let baslik = s.len() > 0 && satir_atilir_mi(&s, i, toplam, true, false, &sozcukler);
        if !baslik {
            let ghost eski = kalan@;
            kalan.push(parcalar[i].clone());
            assert(gorunum(kalan@) =~= gorunum(eski).push(p[i as int]));
        }
        i = i + 1;
    }
    let mut ayirici: Vec<char> = Vec::new();
    ayirici.push('\n');
    assert(ayirici@ =~= seq!['\n']);
    dizeye_cevir(&birlestirilmis(&kalan, &ayirici))
}

impl Storme {
    /// Cleans extracted text: blank lines end paragraphs; running headers are dropped
    /// when `strip_headers` is set, bare page numbers and footnotes when `strip_footers`
    /// is set; the kept lines are trimmed, the lines of a paragraph
    /// joined by spaces, and paragraphs separated by a blank line.
    pub fn akademik_temizle(ham_veri: &str, strip_headers: bool, strip_footers: bool) -> (r:
        String)
        ensures
            r@ == akademik_temiz(ham_veri@, strip_headers, strip_footers),
    {
        let sozcukler = BaslikSozcukleri {
            chapter: karakterler("Chapter"),
            bolum: karakterler("Bölüm"),
            section: karakterler("Section"),
        };
        let mut bosluk_ayirici: Vec<char> = Vec::new();
        bosluk_ayirici.push(' ');
        let mut paragraf_ayirici: Vec<char> = Vec::new();
        paragraf_ayirici.push('\n');
        paragraf_ayirici.push('\n');
        assert(bosluk_ayirici@ =~= seq![' ']);
        assert(paragraf_ayirici@ =~= seq!['\n', '\n']);
        let metin = karakterler(ham_veri);
        let satirlar = satirlara_bol(&metin);
        let ghost tum = gorunum(satirlar@);
        let toplam = satirlar.len();
        let mut temiz: Vec<Vec<char>> = Vec::new();
        let mut acik: Vec<Vec<char>> = Vec::new();
        let mut i: usize = 0;
        while i < toplam
            invariant
                i <= toplam,
                toplam == satirlar.len(),
                tum == gorunum(satirlar@),
                sozcukler.chapter@ == "Chapter"@,
                sozcukler.bolum@ == "Bölüm"@,
                sozcukler.section@ == "Section"@,
                bosluk_ayirici@ == seq![' '],
                (gorunum(temiz@), gorunum(acik@)) == paragraf_durumu(
                    tum,
                    i as nat,
                    strip_headers,
                    strip_footers,
                ),
            decreases toplam - i,
        {
            let s = kirpilmis(&satirlar[i]);
            assert(s@ == kirp(tum[i as int]));
            if s.len() == 0 {
                if acik.len() > 0 {
                    let paragraf = birlestirilmis(&acik, &bosluk_ayirici);
                    let ghost eski = temiz@;
                    temiz.push(paragraf);
                    assert(gorunum(temiz@) =~= gorunum(eski).push(paragraf@));
                    acik = Vec::new();
                    assert(gorunum(acik@) =~= Seq::<Seq<char>>::empty());
                }
            } else if !satir_atilir_mi(&s, i, toplam, strip_headers, strip_footers, &sozcukler) {
                let ghost eski = acik@;
                acik.push(s);
                assert(gorunum(acik@) =~= gorunum(eski).push(s@));
            }
            i = i + 1;
        }
        if acik.len() > 0 {
            let paragraf = birlestirilmis(&acik, &bosluk_ayirici);
            let ghost eski = temiz@;
            temiz.push(paragraf);
            assert(gorunum(temiz@) =~= gorunum(eski).push(paragraf@));
        }
        let sonuc = birlestirilmis(&temiz, &paragraf_ayirici);
        dizeye_cevir(&sonuc)
    }
}

} // verus!
