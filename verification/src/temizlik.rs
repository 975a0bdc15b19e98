//! Properties of the cleaned text: every paragraph is a non-empty, single-line text that
//! neither starts nor ends with whitespace, and no paragraph is a bare page number when
//! footers are stripped; the whole text therefore neither starts nor ends with whitespace;
//! cleaning without header or footer stripping changes nothing when applied a second
//! time; and stripping more leaves the lighter result with some characters taken out.

use vstd::prelude::*;
use crate::altdizi::{
    alt_dizi, gomulu, lemma_alt_dizi_kendisi, lemma_alt_dizi_uzunluk, lemma_gomulu_birlesim,
    lemma_gomulu_ekle, lemma_gomulu_ikisine_ekle, lemma_gomulu_uzunluk,
};
use crate::metin::{
    ascii_rakam, bastan_kirp, bayt_uzunlugu, birlestir, icerir, kelime_sayisi, bosluk, kirp, lemma_bayt_ekle, lemma_parcala_bos_degil,
    parcala, satir_sonu_sil, satirlari, sondan_kirp,
};
use crate::storme::{
    akademik_temiz, dipnot, paragraf_durumu, paragraflar, satir_atilir, sayfa_numarasi,
    sayi_karakterleri,
};

verus! {

/// A finished piece of cleaned text: not empty, no whitespace at either end, and no line
/// break.
pub open spec fn temiz_parca(s: Seq<char>) -> bool {
    &&& s.len() > 0
    &&& !bosluk(s[0])
    &&& !bosluk(s.last())
    &&& !s.contains('\n')
}

/// Trimming the front keeps a suffix that starts with a non-whitespace character.
proof fn lemma_bastan_kirp(s: Seq<char>)
    ensures
        exists|k: int| 0 <= k <= s.len() && bastan_kirp(s) == s.subrange(k, s.len() as int),
        bastan_kirp(s).len() > 0 ==> !bosluk(bastan_kirp(s)[0]),
    decreases s.len(),
{
    if s.len() > 0 && bosluk(s[0]) {
        lemma_bastan_kirp(s.drop_first());
        let k = choose|k: int|
            0 <= k <= s.drop_first().len() && bastan_kirp(s.drop_first()) == s.drop_first().subrange(
                k,
                s.drop_first().len() as int,
            );
        assert(s.drop_first().subrange(k, s.drop_first().len() as int) =~= s.subrange(
            k + 1,
            s.len() as int,
        ));
    } else {
        assert(s.subrange(0, s.len() as int) =~= s);
    }
}

/// Trimming the back keeps a prefix that ends with a non-whitespace character.
proof fn lemma_sondan_kirp(s: Seq<char>)
    ensures
        exists|k: int| 0 <= k <= s.len() && sondan_kirp(s) == s.subrange(0, k),
        sondan_kirp(s).len() > 0 ==> !bosluk(sondan_kirp(s).last()),
    decreases s.len(),
{
    if s.len() > 0 && bosluk(s.last()) {
        lemma_sondan_kirp(s.drop_last());
        let k = choose|k: int|
            0 <= k <= s.drop_last().len() && sondan_kirp(s.drop_last()) == s.drop_last().subrange(
                0,
                k,
            );
        assert(s.drop_last().subrange(0, k) =~= s.subrange(0, k));
    } else {
        assert(s.subrange(0, s.len() as int) =~= s);
    }
}

/// A trimmed text is a piece of the original with no whitespace at either end.
pub proof fn lemma_kirp(s: Seq<char>)
    ensures
        exists|a: int, b: int| 0 <= a <= b <= s.len() && kirp(s) == s.subrange(a, b),
        kirp(s).len() > 0 ==> !bosluk(kirp(s)[0]) && !bosluk(kirp(s).last()),
{
    lemma_bastan_kirp(s);
    let t = bastan_kirp(s);
    lemma_sondan_kirp(t);
    let a = choose|a: int| 0 <= a <= s.len() && t == s.subrange(a, s.len() as int);
    let b = choose|b: int| 0 <= b <= t.len() && sondan_kirp(t) == t.subrange(0, b);
    assert(kirp(s) =~= s.subrange(a, a + b));
    if kirp(s).len() > 0 {
        assert(kirp(s)[0] == t[0]);
    }
}

/// A trimmed line holds no line break when the line holds none.
proof fn lemma_kirp_satir_sonu(s: Seq<char>)
    requires
        !s.contains('\n'),
    ensures
        !kirp(s).contains('\n'),
{
    lemma_kirp(s);
    let (a, b) = choose|a: int, b: int| 0 <= a <= b <= s.len() && kirp(s) == s.subrange(a, b);
    if kirp(s).contains('\n') {
        let i = choose|i: int| 0 <= i < kirp(s).len() && kirp(s)[i] == '\n';
        assert(s[a + i] == '\n');
    }
}

/// The pieces cut at `'\n'` hold no `'\n'`.
proof fn lemma_parcalar_satir_sonu_icermez(s: Seq<char>)
    ensures
        forall|i: int| 0 <= i < parcala(s).len() ==> !(#[trigger] parcala(s)[i]).contains('\n'),
    decreases s.len(),
{
    if s.len() > 0 {
        lemma_parcalar_satir_sonu_icermez(s.drop_last());
        lemma_parcala_bos_degil(s.drop_last());
        let p = parcala(s.drop_last());
        if s.last() != '\n' {
            let q = p.last().push(s.last());
            assert forall|i: int| 0 <= i < parcala(s).len() implies !(
            #[trigger] parcala(s)[i]).contains('\n') by {
                if i == p.len() - 1 {
                    if q.contains('\n') {
                        let j = choose|j: int| 0 <= j < q.len() && q[j] == '\n';
                        assert(j < q.len() - 1);
                        assert(p.last()[j] == '\n');
                    }
                }
            }
        } else {
            assert forall|i: int| 0 <= i < parcala(s).len() implies !(
            #[trigger] parcala(s)[i]).contains('\n') by {
                if i == p.len() {
                    assert(parcala(s)[i] =~= Seq::<char>::empty());
                }
            }
        }
    }
}

/// The lines of a text hold no line break.
pub proof fn lemma_satirlar_satir_sonu_icermez(s: Seq<char>)
    ensures
        forall|i: int| 0 <= i < satirlari(s).len() ==> !(#[trigger] satirlari(s)[i]).contains('\n'),
{
    lemma_parcalar_satir_sonu_icermez(s);
    lemma_parcala_bos_degil(s);
    let p = parcala(s);
    assert forall|i: int| 0 <= i < satirlari(s).len() implies !(
    #[trigger] satirlari(s)[i]).contains('\n') by {
        if i < p.len() - 1 {
            let l = p[i];
            assert(satirlari(s)[i] == satir_sonu_sil(l));
            assert(!l.contains('\n'));
            if satir_sonu_sil(l).contains('\n') {
                let j = choose|j: int| 0 <= j < satir_sonu_sil(l).len() && satir_sonu_sil(l)[j] == '\n';
                assert(l[j] == '\n');
            }
        } else {
            assert(satirlari(s)[i] == p.last());
        }
    }
}

/// A text made of digits, whitespace and dashes starts with such a text.
proof fn lemma_sayi_onek(a: Seq<char>, b: Seq<char>)
    requires
        sayi_karakterleri(a + b),
    ensures
        sayi_karakterleri(a),
{
    assert forall|k: int| 0 <= k < a.len() implies {
        let c = #[trigger] a[k];
        ascii_rakam(c) || bosluk(c) || c == '-' || c == '—'
    } by {
        assert(a[k] == (a + b)[k]);
    }
}

/// Lines joined by spaces form a clean piece when the lines are clean pieces, and are no
/// bare page number when no line is one.
proof fn lemma_bosluklu_birlesim(p: Seq<Seq<char>>)
    requires
        p.len() > 0,
        forall|i: int| 0 <= i < p.len() ==> temiz_parca(#[trigger] p[i]),
    ensures
        temiz_parca(birlestir(p, seq![' '])),
        (forall|i: int| 0 <= i < p.len() ==> !sayfa_numarasi(#[trigger] p[i])) ==> !sayfa_numarasi(
            birlestir(p, seq![' ']),
        ),
    decreases p.len(),
{
    if p.len() > 1 {
        let a = birlestir(p.drop_last(), seq![' ']);
        let x = p.last();
        assert forall|i: int| 0 <= i < p.drop_last().len() implies temiz_parca(
            #[trigger] p.drop_last()[i],
        ) by {
            assert(p.drop_last()[i] == p[i]);
        }
        if forall|i: int| 0 <= i < p.len() ==> !sayfa_numarasi(#[trigger] p[i]) {
            assert forall|i: int| 0 <= i < p.drop_last().len() implies !sayfa_numarasi(
                #[trigger] p.drop_last()[i],
            ) by {
                assert(p.drop_last()[i] == p[i]);
            }
        }
        lemma_bosluklu_birlesim(p.drop_last());
        assert(temiz_parca(x));
        let r = birlestir(p, seq![' ']);
        assert(r == a + seq![' '] + x);
        assert(r[0] == a[0]);
        assert(r.last() == x.last());
        if r.contains('\n') {
            let j = choose|j: int| 0 <= j < r.len() && r[j] == '\n';
            if j < a.len() {
                assert(a[j] == '\n');
            } else if j == a.len() {
                assert(r[j] == ' ');
            } else {
                assert(x[j - a.len() - 1] == '\n');
            }
        }
        if sayfa_numarasi(r) {
            assert(r == a + (seq![' '] + x));
            lemma_sayi_onek(a, seq![' '] + x);
            lemma_bayt_ekle(a, seq![' '] + x);
        }
    } else {
        assert(birlestir(p, seq![' ']) == p[0]);
    }
}

/// While the lines are read, every finished paragraph and every kept line of the open
/// paragraph is a clean piece, and none is a bare page number when footers are stripped.
proof fn lemma_durum_temiz(satirlar: Seq<Seq<char>>, n: nat, baslik: bool, dip: bool)
    requires
        n <= satirlar.len(),
        forall|i: int| 0 <= i < satirlar.len() ==> !(#[trigger] satirlar[i]).contains('\n'),
    ensures
        forall|i: int|
            0 <= i < paragraf_durumu(satirlar, n, baslik, dip).0.len() ==> temiz_parca(
                #[trigger] paragraf_durumu(satirlar, n, baslik, dip).0[i],
            ),
        forall|i: int|
            0 <= i < paragraf_durumu(satirlar, n, baslik, dip).1.len() ==> temiz_parca(
                #[trigger] paragraf_durumu(satirlar, n, baslik, dip).1[i],
            ),
        dip ==> forall|i: int|
            0 <= i < paragraf_durumu(satirlar, n, baslik, dip).0.len() ==> !sayfa_numarasi(
                #[trigger] paragraf_durumu(satirlar, n, baslik, dip).0[i],
            ),
        dip ==> forall|i: int|
            0 <= i < paragraf_durumu(satirlar, n, baslik, dip).1.len() ==> !sayfa_numarasi(
                #[trigger] paragraf_durumu(satirlar, n, baslik, dip).1[i],
            ),
    decreases n,
{
    if n > 0 {
        lemma_durum_temiz(satirlar, (n - 1) as nat, baslik, dip);
        let (bitti, acik) = paragraf_durumu(satirlar, (n - 1) as nat, baslik, dip);
        let s = kirp(satirlar[n - 1]);
        lemma_kirp(satirlar[n - 1]);
        lemma_kirp_satir_sonu(satirlar[n - 1]);
        if s.len() == 0 {
            if acik.len() > 0 {
                lemma_bosluklu_birlesim(acik);
                let yeni = bitti.push(birlestir(acik, seq![' ']));
                assert forall|i: int| 0 <= i < yeni.len() implies temiz_parca(#[trigger] yeni[i]) by {
                    if i < bitti.len() {
                        assert(yeni[i] == bitti[i]);
                    }
                }
                if dip {
                    assert forall|i: int| 0 <= i < yeni.len() implies !sayfa_numarasi(
                        #[trigger] yeni[i],
                    ) by {
                        if i < bitti.len() {
                            assert(yeni[i] == bitti[i]);
                        }
                    }
                }
            }
        } else if !satir_atilir(s, n - 1, satirlar.len() as int, baslik, dip) {
            let yeni = acik.push(s);
            assert forall|i: int| 0 <= i < yeni.len() implies temiz_parca(#[trigger] yeni[i]) by {
                if i < acik.len() {
                    assert(yeni[i] == acik[i]);
                }
            }
            if dip {
                assert forall|i: int| 0 <= i < yeni.len() implies !sayfa_numarasi(
                    #[trigger] yeni[i],
                ) by {
                    if i < acik.len() {
                        assert(yeni[i] == acik[i]);
                    }
                }
            }
        }
    }
}

/// Every paragraph of the cleaned text is a non-empty single line with no whitespace at
/// either end, whatever the options; when footers are stripped, no paragraph is a bare
/// page number.
pub proof fn lemma_paragraflar_temiz(metin: Seq<char>, baslik: bool, dip: bool)
    ensures
        forall|i: int|
            0 <= i < paragraflar(satirlari(metin), baslik, dip).len() ==> temiz_parca(
                #[trigger] paragraflar(satirlari(metin), baslik, dip)[i],
            ),
        dip ==> forall|i: int|
            0 <= i < paragraflar(satirlari(metin), baslik, dip).len() ==> !sayfa_numarasi(
                #[trigger] paragraflar(satirlari(metin), baslik, dip)[i],
            ),
        akademik_temiz(metin, baslik, dip) == birlestir(
            paragraflar(satirlari(metin), baslik, dip),
            seq!['\n', '\n'],
        ),
{
    let satirlar = satirlari(metin);
    lemma_satirlar_satir_sonu_icermez(metin);
    lemma_durum_temiz(satirlar, satirlar.len(), baslik, dip);
    let (bitti, acik) = paragraf_durumu(satirlar, satirlar.len(), baslik, dip);
    if acik.len() > 0 {
        lemma_bosluklu_birlesim(acik);
        let p = paragraflar(satirlar, baslik, dip);
        assert forall|i: int| 0 <= i < p.len() implies temiz_parca(#[trigger] p[i]) by {
            if i < bitti.len() {
                assert(p[i] == bitti[i]);
            }
        }
        if dip {
            assert forall|i: int| 0 <= i < p.len() implies !sayfa_numarasi(#[trigger] p[i]) by {
                if i < bitti.len() {
                    assert(p[i] == bitti[i]);
                }
            }
        }
    }
}

/// Pieces joined by a separator start with the first piece and end with the last.
proof fn lemma_birlesim_uclari(p: Seq<Seq<char>>, ayirici: Seq<char>)
    requires
        p.len() > 0,
        forall|i: int| 0 <= i < p.len() ==> (#[trigger] p[i]).len() > 0,
    ensures
        birlestir(p, ayirici).len() > 0,
        birlestir(p, ayirici)[0] == p[0][0],
        birlestir(p, ayirici).last() == p.last().last(),
    decreases p.len(),
{
    if p.len() > 1 {
        assert forall|i: int| 0 <= i < p.drop_last().len() implies (
        #[trigger] p.drop_last()[i]).len() > 0 by {
            assert(p.drop_last()[i] == p[i]);
        }
        lemma_birlesim_uclari(p.drop_last(), ayirici);
        let a = birlestir(p.drop_last(), ayirici);
        assert(birlestir(p, ayirici) == a + ayirici + p.last());
        assert((a + ayirici + p.last())[0] == a[0]);
    }
}

/// The cleaned text is empty or starts and ends with a non-whitespace character.
pub proof fn lemma_temiz_metin_kenarlari(metin: Seq<char>, baslik: bool, dip: bool)
    ensures
        akademik_temiz(metin, baslik, dip).len() == 0 || (!bosluk(
            akademik_temiz(metin, baslik, dip)[0],
        ) && !bosluk(akademik_temiz(metin, baslik, dip).last())),
{
    lemma_paragraflar_temiz(metin, baslik, dip);
    let p = paragraflar(satirlari(metin), baslik, dip);
    if p.len() > 0 {
        assert forall|i: int| 0 <= i < p.len() implies (#[trigger] p[i]).len() > 0 by {
            assert(temiz_parca(p[i]));
        }
        lemma_birlesim_uclari(p, seq!['\n', '\n']);
        assert(temiz_parca(p[0]));
        assert(temiz_parca(p.last()));
    }
}

/// Paragraphs laid out as lines: each paragraph, with an empty line between two.
pub open spec fn araya_bos(p: Seq<Seq<char>>) -> Seq<Seq<char>> {
    if p.len() == 0 {
        Seq::empty()
    } else {
        Seq::new(
            (2 * p.len() - 1) as nat,
            |j: int|
                if j % 2 == 0 {
                    p[j / 2]
                } else {
                    Seq::empty()
                },
        )
    }
}

/// Appending text without `'\n'` extends the last piece.
proof fn lemma_parcala_uzat(x: Seq<char>, s: Seq<char>)
    requires
        !s.contains('\n'),
    ensures
        parcala(x + s) == parcala(x).update(parcala(x).len() - 1, parcala(x).last() + s),
    decreases s.len(),
{
    lemma_parcala_bos_degil(x);
    if s.len() == 0 {
        assert(x + s =~= x);
        assert(parcala(x).last() + s =~= parcala(x).last());
        assert(parcala(x).update(parcala(x).len() - 1, parcala(x).last()) =~= parcala(x));
    } else {
        let t = s.drop_last();
        assert(!t.contains('\n')) by {
            if t.contains('\n') {
                let j = choose|j: int| 0 <= j < t.len() && t[j] == '\n';
                assert(s[j] == '\n');
            }
        }
        lemma_parcala_uzat(x, t);
        assert((x + s).drop_last() =~= x + t);
        assert((x + s).last() == s.last());
        assert(s.last() != '\n');
        let q = parcala(x + t);
        lemma_parcala_bos_degil(x + t);
        assert(parcala(x + s) == q.update(q.len() - 1, q.last().push(s.last())));
        assert(q.last() == parcala(x).last() + t);
        assert((parcala(x).last() + t).push(s.last()) =~= parcala(x).last() + s);
        assert(parcala(x + s) =~= parcala(x).update(parcala(x).len() - 1, parcala(x).last() + s));
    }
}

/// Paragraphs without line breaks, joined by blank lines, cut back into the paragraphs
/// with empty pieces between them.
proof fn lemma_parcala_birlesim(p: Seq<Seq<char>>)
    requires
        p.len() > 0,
        forall|i: int| 0 <= i < p.len() ==> !(#[trigger] p[i]).contains('\n'),
    ensures
        parcala(birlestir(p, seq!['\n', '\n'])) == araya_bos(p),
    decreases p.len(),
{
    let e = Seq::<char>::empty();
    if p.len() == 1 {
        lemma_parcala_uzat(e, p[0]);
        assert(e + p[0] =~= p[0]);
        assert(parcala(e) == seq![e]);
        assert(seq![e].update(0, e + p[0]) =~= araya_bos(p));
    } else {
        let q = p.drop_last();
        let x = p.last();
        assert forall|i: int| 0 <= i < q.len() implies !(#[trigger] q[i]).contains('\n') by {
            assert(q[i] == p[i]);
        }
        lemma_parcala_birlesim(q);
        let y = birlestir(q, seq!['\n', '\n']);
        assert(birlestir(p, seq!['\n', '\n']) == y + seq!['\n', '\n'] + x);
        let y1 = y.push('\n');
        let y2 = y1.push('\n');
        assert(y + seq!['\n', '\n'] =~= y2);
        assert(y1.drop_last() == y);
        assert(y2.drop_last() == y1);
        assert(parcala(y1) == parcala(y).push(e));
        assert(parcala(y2) == parcala(y1).push(e));
        lemma_parcala_uzat(y2, x);
        lemma_parcala_bos_degil(y2);
        assert(e + x =~= x);
        assert(parcala(y2 + x) =~= araya_bos(q).push(e).push(x));
        assert(araya_bos(q).push(e).push(x) =~= araya_bos(p)) by {
            assert forall|j: int| 0 <= j < araya_bos(p).len() implies araya_bos(q).push(e).push(
                x,
            )[j] == #[trigger] araya_bos(p)[j] by {
                if j < araya_bos(q).len() {
                    if j % 2 == 0 {
                        assert(q[j / 2] == p[j / 2]);
                    }
                }
            }
        }
    }
}

/// A non-empty text without whitespace at either end is its own trim.
proof fn lemma_kirp_degismez(s: Seq<char>)
    requires
        s.len() > 0,
        !bosluk(s[0]),
        !bosluk(s.last()),
    ensures
        kirp(s) == s,
{
}

/// Clean paragraphs, laid out as lines, are read back as the same paragraphs when no
/// header or footer is stripped.
proof fn lemma_durum_araya_bos(p: Seq<Seq<char>>, k: nat)
    requires
        forall|i: int| 0 <= i < p.len() ==> temiz_parca(#[trigger] p[i]),
        k <= araya_bos(p).len(),
    ensures
        k % 2 == 1 ==> paragraf_durumu(araya_bos(p), k, false, false) == (
            p.take((k / 2) as int),
            seq![p[(k / 2) as int]],
        ),
        k % 2 == 0 ==> paragraf_durumu(araya_bos(p), k, false, false) == (
            p.take((k / 2) as int),
            Seq::<Seq<char>>::empty(),
        ),
    decreases k,
{
    let l = araya_bos(p);
    if k > 0 {
        lemma_durum_araya_bos(p, (k - 1) as nat);
        let i = ((k - 1) / 2) as int;
        if (k - 1) % 2 == 0 {
            assert(l[k - 1] == p[i]);
            assert(temiz_parca(p[i]));
            lemma_kirp_degismez(p[i]);
            assert(p.take(i) =~= p.take((k / 2) as int));
            assert(Seq::<Seq<char>>::empty().push(p[i]) =~= seq![p[(k / 2) as int]]);
        } else {
            assert(l[k - 1] =~= Seq::<char>::empty());
            assert(kirp(Seq::<char>::empty()) =~= Seq::<char>::empty());
            assert(birlestir(seq![p[i]], seq![' ']) == p[i]);
            assert(p.take(i).push(p[i]) =~= p.take((k / 2) as int));
        }
    } else {
        assert(p.take(0) =~= Seq::<Seq<char>>::empty());
    }
}

/// Cleaning without header or footer stripping changes nothing the second time: the
/// cleaned text reads back as the same paragraphs.
pub proof fn lemma_temizlik_iki_kez(metin: Seq<char>)
    ensures
        akademik_temiz(akademik_temiz(metin, false, false), false, false) == akademik_temiz(
            metin,
            false,
            false,
        ),
{
    lemma_paragraflar_temiz(metin, false, false);
    let p = paragraflar(satirlari(metin), false, false);
    let r = akademik_temiz(metin, false, false);
    if p.len() == 0 {
        assert(r =~= Seq::<char>::empty());
        assert(parcala(r) == seq![Seq::<char>::empty()]);
        assert(satirlari(r) =~= Seq::<Seq<char>>::empty());
        assert(paragraf_durumu(satirlari(r), 0, false, false) == (
            Seq::<Seq<char>>::empty(),
            Seq::<Seq<char>>::empty(),
        ));
        assert(paragraflar(satirlari(r), false, false) =~= p);
    } else {
        assert forall|i: int| 0 <= i < p.len() implies !(#[trigger] p[i]).contains('\n') by {
            assert(temiz_parca(p[i]));
        }
        lemma_parcala_birlesim(p);
        let l = araya_bos(p);
        assert(l.last() == p.last());
        assert(temiz_parca(p.last()));
        assert(l.drop_last().map_values(|x: Seq<char>| satir_sonu_sil(x)) =~= l.drop_last()) by {
            assert forall|j: int| 0 <= j < l.drop_last().len() implies satir_sonu_sil(
                #[trigger] l.drop_last()[j],
            ) == l.drop_last()[j] by {
                if j % 2 == 0 {
                    assert(temiz_parca(p[j / 2]));
                }
            }
        }
        assert(satirlari(r) =~= l);
        let n = l.len();
        lemma_durum_araya_bos(p, n);
        assert(n % 2 == 1);
        assert((n / 2) as int == p.len() - 1);
        assert(p.take(p.len() - 1).push(p[p.len() - 1]) =~= p);
        assert(birlestir(seq![p[p.len() - 1]], seq![' ']) == p[p.len() - 1]);
        assert(paragraflar(satirlari(r), false, false) == p);
    }
}

/// Reading the same lines with at least as much stripping: at every step the finished
/// paragraphs, and the kept lines of the open paragraph, are matched in order to those of
/// the lighter reading.
proof fn lemma_durum_gomulu(
    satirlar: Seq<Seq<char>>,
    n: nat,
    baslik1: bool,
    dip1: bool,
    baslik2: bool,
    dip2: bool,
)
    requires
        n <= satirlar.len(),
        baslik1 ==> baslik2,
        dip1 ==> dip2,
    ensures
        gomulu(
            paragraf_durumu(satirlar, n, baslik2, dip2).0,
            paragraf_durumu(satirlar, n, baslik1, dip1).0,
        ),
        gomulu(
            paragraf_durumu(satirlar, n, baslik2, dip2).1,
            paragraf_durumu(satirlar, n, baslik1, dip1).1,
        ),
    decreases n,
{
    if n > 0 {
        lemma_durum_gomulu(satirlar, (n - 1) as nat, baslik1, dip1, baslik2, dip2);
        let (bitti1, acik1) = paragraf_durumu(satirlar, (n - 1) as nat, baslik1, dip1);
        let (bitti2, acik2) = paragraf_durumu(satirlar, (n - 1) as nat, baslik2, dip2);
        let s = kirp(satirlar[n - 1]);
        let toplam = satirlar.len() as int;
        if s.len() == 0 {
            lemma_gomulu_uzunluk(acik2, acik1);
            if acik1.len() > 0 {
                if acik2.len() > 0 {
                    lemma_gomulu_birlesim(acik2, acik1, seq![' ']);
                    lemma_gomulu_ikisine_ekle(
                        bitti2,
                        bitti1,
                        birlestir(acik2, seq![' ']),
                        birlestir(acik1, seq![' ']),
                    );
                } else {
                    lemma_gomulu_ekle(bitti2, bitti1, birlestir(acik1, seq![' ']));
                }
            }
        } else if satir_atilir(s, n - 1, toplam, baslik1, dip1) {
            assert(satir_atilir(s, n - 1, toplam, baslik2, dip2));
        } else if satir_atilir(s, n - 1, toplam, baslik2, dip2) {
            lemma_gomulu_ekle(acik2, acik1, s);
        } else {
            lemma_alt_dizi_kendisi(s);
            lemma_gomulu_ikisine_ekle(acik2, acik1, s, s);
        }
    }
}

/// Stripping more never adds text: when the second cleaning strips headers wherever the
/// first does, and footers wherever the first does, its result is the first result with
/// some characters taken out, and so no longer than it.
pub proof fn lemma_daha_cok_temizlik(
    metin: Seq<char>,
    baslik1: bool,
    dip1: bool,
    baslik2: bool,
    dip2: bool,
)
    requires
        baslik1 ==> baslik2,
        dip1 ==> dip2,
    ensures
        alt_dizi(akademik_temiz(metin, baslik2, dip2), akademik_temiz(metin, baslik1, dip1)),
        akademik_temiz(metin, baslik2, dip2).len() <= akademik_temiz(metin, baslik1, dip1).len(),
{
    let satirlar = satirlari(metin);
    let n = satirlar.len();
    lemma_durum_gomulu(satirlar, n, baslik1, dip1, baslik2, dip2);
    let (bitti1, acik1) = paragraf_durumu(satirlar, n, baslik1, dip1);
    let (bitti2, acik2) = paragraf_durumu(satirlar, n, baslik2, dip2);
    lemma_gomulu_uzunluk(acik2, acik1);
    if acik1.len() > 0 {
        if acik2.len() > 0 {
            lemma_gomulu_birlesim(acik2, acik1, seq![' ']);
            lemma_gomulu_ikisine_ekle(
                bitti2,
                bitti1,
                birlestir(acik2, seq![' ']),
                birlestir(acik1, seq![' ']),
            );
        } else {
            lemma_gomulu_ekle(bitti2, bitti1, birlestir(acik1, seq![' ']));
        }
    }
    let p1 = paragraflar(satirlar, baslik1, dip1);
    let p2 = paragraflar(satirlar, baslik2, dip2);
    assert(gomulu(p2, p1));
    lemma_gomulu_birlesim(p2, p1, seq!['\n', '\n']);
    lemma_alt_dizi_uzunluk(akademik_temiz(metin, baslik2, dip2), akademik_temiz(metin, baslik1, dip1));
}

/// A line that footer stripping can touch starts with a digit, `'['`, whitespace, `'-'`
/// or `'—'`.
pub open spec fn dipnot_gibi_baslar(s: Seq<char>) -> bool {
    s.len() > 0 && (ascii_rakam(s[0]) || s[0] == '[' || bosluk(s[0]) || s[0] == '-' || s[0]
        == '—')
}

/// Which trimmed line is dropped. Without any stripping, none. With footers stripped: a
/// line under 30 bytes starting with `'['` and holding `']'`, and a line under 40 bytes
/// starting with an ASCII digit and holding `'.'`. A line that starts with anything else
/// (a letter, say) is never dropped as a page number or a footnote, so with headers kept
/// it is always kept, whatever digits or dots it holds further on. With footers
/// stripped, a line of digits, whitespace and dashes under 8 bytes is dropped as a page
/// number. Headers are dropped only among the first three and the last three lines,
/// never when the line has six words or more, and always when, there and shorter, it
/// names a chapter or a section.
pub proof fn lemma_satir_atilir(s: Seq<char>, i: int, toplam: int, baslik: bool, dip: bool)
    ensures
        !satir_atilir(s, i, toplam, false, false),
        dip && s.len() > 0 && s[0] == '[' && s.contains(']') && bayt_uzunlugu(s) < 30
            ==> satir_atilir(s, i, toplam, baslik, dip),
        dip && s.len() > 0 && ascii_rakam(s[0]) && s.contains('.') && bayt_uzunlugu(s) < 40
            ==> satir_atilir(s, i, toplam, baslik, dip),
        s.len() > 0 && !dipnot_gibi_baslar(s) ==> !sayfa_numarasi(s) && !dipnot(s),
        s.len() > 0 && !dipnot_gibi_baslar(s) ==> !satir_atilir(s, i, toplam, false, dip),
        dip && (forall|k: int|
            0 <= k < s.len() ==> ascii_rakam(#[trigger] s[k]) || bosluk(s[k]) || s[k] == '-'
                || s[k] == '—') && bayt_uzunlugu(s) < 8 ==> satir_atilir(s, i, toplam, baslik, dip),
        !dip && 3 <= i && i + 4 <= toplam ==> !satir_atilir(s, i, toplam, baslik, dip),
        !baslik && !dip ==> !satir_atilir(s, i, toplam, baslik, dip),
        !dip && kelime_sayisi(s) >= 6 ==> !satir_atilir(s, i, toplam, baslik, dip),
        baslik && (i < 3 || i + 4 > toplam) && kelime_sayisi(s) < 6 && (icerir(s, "Chapter"@)
            || icerir(s, "Bölüm"@) || icerir(s, "Section"@)) ==> satir_atilir(
            s,
            i,
            toplam,
            baslik,
            dip,
        ),
{
    if s.len() > 0 && !dipnot_gibi_baslar(s) {
        if sayi_karakterleri(s) {
            let c = s[0];
            assert(ascii_rakam(c) || bosluk(c) || c == '-' || c == '—');
        }
    }
}

/// Footer stripping reads the same lines the same way whenever no trimmed line starts
/// like a page number or a footnote.
proof fn lemma_durum_dipsiz(satirlar: Seq<Seq<char>>, n: nat, baslik: bool)
    requires
        n <= satirlar.len(),
        forall|i: int| 0 <= i < satirlar.len() ==> !dipnot_gibi_baslar(kirp(#[trigger] satirlar[i])),
    ensures
        paragraf_durumu(satirlar, n, baslik, true) == paragraf_durumu(satirlar, n, baslik, false),
    decreases n,
{
    if n > 0 {
        lemma_durum_dipsiz(satirlar, (n - 1) as nat, baslik);
        let s = kirp(satirlar[n - 1]);
        assert(!dipnot_gibi_baslar(s));
        lemma_satir_atilir(s, n - 1, satirlar.len() as int, baslik, true);
    }
}

/// When no line of the text, trimmed, starts with a digit, `'['`, `'-'` or `'—'`, footer
/// stripping changes nothing: a text whose lines all start with letters, digits and dots
/// further on included, comes out the same with `strip_footers` set or not.
pub proof fn lemma_dipnotsuz_metin(metin: Seq<char>, baslik: bool)
    requires
        forall|i: int|
            0 <= i < satirlari(metin).len() ==> !dipnot_gibi_baslar(
                kirp(#[trigger] satirlari(metin)[i]),
            ),
    ensures
        akademik_temiz(metin, baslik, true) == akademik_temiz(metin, baslik, false),
{
    let l = satirlari(metin);
    lemma_durum_dipsiz(l, l.len(), baslik);
}

} // verus!
