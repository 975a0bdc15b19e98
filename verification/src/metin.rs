//! Character-level text primitives over `Seq<char>`: whitespace, trimming, words,
//! substring search, UTF-8 byte length, joining and line splitting, each with an
//! executable counterpart over `Vec<char>`.

use vstd::prelude::*;
use vstd::std_specs::iter::IteratorSpec;

verus! {

broadcast use vstd::string::group_string_axioms;

// ---------------------------------------------------------------------------
// Specifications
// ---------------------------------------------------------------------------

/// The Unicode `White_Space` property, which is what `char::is_whitespace` tests.
pub open spec fn bosluk(c: char) -> bool {
    let k = c as u32;
    ||| 0x09 <= k <= 0x0d
    ||| k == 0x20
    ||| k == 0x85
    ||| k == 0xa0
    ||| k == 0x1680
    ||| 0x2000 <= k <= 0x200a
    ||| k == 0x2028
    ||| k == 0x2029
    ||| k == 0x202f
    ||| k == 0x205f
    ||| k == 0x3000
}

/// An ASCII decimal digit `'0'..='9'`.
pub open spec fn ascii_rakam(c: char) -> bool {
    '0' <= c && c <= '9'
}

/// Number of bytes of the UTF-8 encoding of `c`.
pub open spec fn karakter_bayt(c: char) -> nat {
    let k = c as u32;
    if k < 0x80 {
        1
    } else if k < 0x800 {
        2
    } else if k < 0x10000 {
        3
    } else {
        4
    }
}

/// Number of bytes of the UTF-8 encoding of `s` (what `str::len` returns).
pub open spec fn bayt_uzunlugu(s: Seq<char>) -> nat
    decreases s.len(),
{
    if s.len() == 0 {
        0
    } else {
        bayt_uzunlugu(s.drop_last()) + karakter_bayt(s.last())
    }
}

/// `s` without its leading whitespace.
pub open spec fn bastan_kirp(s: Seq<char>) -> Seq<char>
    decreases s.len(),
{
    if s.len() > 0 && bosluk(s[0]) {
        bastan_kirp(s.drop_first())
    } else {
        s
    }
}

/// `s` without its trailing whitespace.
pub open spec fn sondan_kirp(s: Seq<char>) -> Seq<char>
    decreases s.len(),
{
    if s.len() > 0 && bosluk(s.last()) {
        sondan_kirp(s.drop_last())
    } else {
        s
    }
}

/// `s` without leading and trailing whitespace (what `str::trim` returns).
pub open spec fn kirp(s: Seq<char>) -> Seq<char> {
    sondan_kirp(bastan_kirp(s))
}

/// Number of maximal runs of non-whitespace characters in `s`
/// (what `str::split_whitespace().count()` returns).
pub open spec fn kelime_sayisi(s: Seq<char>) -> nat
    decreases s.len(),
{
    if s.len() == 0 {
        0
    } else {
        let onceki = kelime_sayisi(s.drop_last());
        if !bosluk(s.last()) && (s.len() == 1 || bosluk(s[s.len() - 2])) {
            onceki + 1
        } else {
            onceki
        }
    }
}

/// `p` occurs in `s` at position `i`.
pub open spec fn konumda_eslesir(s: Seq<char>, p: Seq<char>, i: int) -> bool {
    0 <= i && i + p.len() <= s.len() && s.subrange(i, i + p.len()) == p
}

/// `p` occurs somewhere in `s` (what `str::contains` with a string pattern returns).
pub open spec fn icerir(s: Seq<char>, p: Seq<char>) -> bool {
    exists|i: int| konumda_eslesir(s, p, i)
}

/// The pieces of `p` joined with `ayirici` between consecutive pieces
/// (what `[..].join(ayirici)` returns).
pub open spec fn birlestir(p: Seq<Seq<char>>, ayirici: Seq<char>) -> Seq<char>
    decreases p.len(),
{
    if p.len() == 0 {
        Seq::empty()
    } else if p.len() == 1 {
        p[0]
    } else {
        birlestir(p.drop_last(), ayirici) + ayirici + p.last()
    }
}

/// `s` cut at every `'\n'`: always at least one piece, and the pieces hold no `'\n'`.
pub open spec fn parcala(s: Seq<char>) -> Seq<Seq<char>>
    decreases s.len(),
{
    if s.len() == 0 {
        seq![Seq::empty()]
    } else {
        let p = parcala(s.drop_last());
        if s.last() == '\n' {
            p.push(Seq::empty())
        } else {
            p.update(p.len() - 1, p.last().push(s.last()))
        }
    }
}

/// A line that ended in `"\r\n"` loses its `'\r'`.
pub open spec fn satir_sonu_sil(l: Seq<char>) -> Seq<char> {
    if l.len() > 0 && l.last() == '\r' {
        l.drop_last()
    } else {
        l
    }
}

/// The lines of `s`, as `str::lines` yields them: split at `'\n'`, a `'\r'` before a
/// `'\n'` dropped, and no line after a final `'\n'`.
pub open spec fn satirlari(s: Seq<char>) -> Seq<Seq<char>> {
    let p = parcala(s);
    let bitmis = p.drop_last().map_values(|l: Seq<char>| satir_sonu_sil(l));
    if p.last().len() == 0 {
        bitmis
    } else {
        bitmis.push(p.last())
    }
}

/// The abstract contents of a vector of character vectors.
pub open spec fn gorunum(v: Seq<Vec<char>>) -> Seq<Seq<char>> {
    v.map_values(|x: Vec<char>| x@)
}

// ---------------------------------------------------------------------------
// Lemmas
// ---------------------------------------------------------------------------

/// `parcala` never returns an empty sequence.
pub proof fn lemma_parcala_bos_degil(s: Seq<char>)
    ensures
        parcala(s).len() >= 1,
    decreases s.len(),
{
    if s.len() > 0 {
        lemma_parcala_bos_degil(s.drop_last());
    }
}

/// Appending a piece to a join adds the separator and the piece.
pub proof fn lemma_birlestir_push(p: Seq<Seq<char>>, x: Seq<char>, ayirici: Seq<char>)
    requires
        p.len() >= 1,
    ensures
        birlestir(p.push(x), ayirici) == birlestir(p, ayirici) + ayirici + x,
{
    assert(p.push(x).drop_last() == p);
}

/// The byte length of a concatenation is the sum of the byte lengths.
pub proof fn lemma_bayt_ekle(a: Seq<char>, b: Seq<char>)
    ensures
        bayt_uzunlugu(a + b) == bayt_uzunlugu(a) + bayt_uzunlugu(b),
    decreases b.len(),
{
    if b.len() == 0 {
        assert(a + b == a);
    } else {
        lemma_bayt_ekle(a, b.drop_last());
        assert((a + b).drop_last() == a + b.drop_last());
    }
}

// ---------------------------------------------------------------------------
// Executable functions
// ---------------------------------------------------------------------------

/// Appends one character to a `String` (std `String::push`): the string afterwards is the
/// old one followed by `c`.
#[verifier::external_body]
fn dizeye_karakter_ekle(s: &mut String, c: char)
    ensures
        final(s)@ == old(s)@.push(c),
{
    s.push(c);
}

/// The characters of `s`, in order.
pub fn karakterler(s: &str) -> (r: Vec<char>)
    ensures
        r@ == s@,
{
    let mut r: Vec<char> = Vec::new();
    for c in it: s.chars()
        invariant
            r@ == it.seq().take(it.index()),
            it.seq() == s@,
    {
        r.push(c);
    }
    r
}

/// A `String` holding exactly the characters of `v`.
pub fn dizeye_cevir(v: &Vec<char>) -> (r: String)
    ensures
        r@ == v@,
{
    let mut r = String::new();
    let mut i: usize = 0;
    while i < v.len()
        invariant
            i <= v.len(),
            r@ == v@.take(i as int),
        decreases v.len() - i,
    {
        dizeye_karakter_ekle(&mut r, v[i]);
        assert(v@.take(i + 1) == v@.take(i as int).push(v@[i as int]));
        i = i + 1;
    }
    assert(v@.take(v.len() as int) == v@);
    r
}

/// Whether `c` is a whitespace character.
pub fn bosluk_mu(c: char) -> (r: bool)
    ensures
        r == bosluk(c),
{
    let k = c as u32;
    (0x09 <= k && k <= 0x0d) || k == 0x20 || k == 0x85 || k == 0xa0 || k == 0x1680 || (0x2000
        <= k && k <= 0x200a) || k == 0x2028 || k == 0x2029 || k == 0x202f || k == 0x205f || k
        == 0x3000
}

/// Whether `c` is an ASCII decimal digit.
pub fn ascii_rakam_mi(c: char) -> (r: bool)
    ensures
        r == ascii_rakam(c),
{
    '0' <= c && c <= '9'
}

/// Number of bytes of the UTF-8 encoding of `c`.
pub fn karakter_bayt_sayisi(c: char) -> (r: usize)
    ensures
        r == karakter_bayt(c),
{
    let k = c as u32;
    if k < 0x80 {
        1
    } else if k < 0x800 {
        2
    } else if k < 0x10000 {
        3
    } else {
        4
    }
}

/// Whether the UTF-8 encoding of `s` has fewer than `sinir` bytes.
pub fn bayt_uzunlugu_kucuk_mu(s: &Vec<char>, sinir: usize) -> (r: bool)
    ensures
        r == (bayt_uzunlugu(s@) < sinir),
{
    if sinir == 0 {
        return false;
    }
    let mut toplam: usize = 0;
    let mut i: usize = 0;
    assert(s@.take(0) == Seq::<char>::empty());
    while i < s.len()
        invariant
            i <= s.len(),
            toplam == bayt_uzunlugu(s@.take(i as int)),
            toplam < sinir,
        decreases s.len() - i,
    {
        assert(s@.take(i + 1).drop_last() == s@.take(i as int));
        let b = karakter_bayt_sayisi(s[i]);
        if b >= sinir - toplam {
            proof {
                lemma_bayt_ekle(s@.take(i + 1), s@.skip(i + 1));
                assert(s@.take(i + 1) + s@.skip(i + 1) == s@);
            }
            return false;
        }
        toplam = toplam + b;
        i = i + 1;
    }
    assert(s@.take(s.len() as int) == s@);
    true
}

/// `s` without leading and trailing whitespace.
pub fn kirpilmis(s: &Vec<char>) -> (r: Vec<char>)
    ensures
        r@ == kirp(s@),
{
    let n = s.len();
    let mut a: usize = 0;
    assert(s@.subrange(0, n as int) == s@);
    while a < n && bosluk_mu(s[a])
        invariant
            a <= n,
            n == s.len(),
            bastan_kirp(s@) == bastan_kirp(s@.subrange(a as int, n as int)),
        decreases n - a,
    {
        assert(s@.subrange(a as int, n as int).drop_first() == s@.subrange(a + 1, n as int));
        a = a + 1;
    }
    assert(bastan_kirp(s@.subrange(a as int, n as int)) == s@.subrange(a as int, n as int));
    let mut b: usize = n;
    while b > a && bosluk_mu(s[b - 1])
        invariant
            a <= b <= n,
            n == s.len(),
            kirp(s@) == sondan_kirp(s@.subrange(a as int, b as int)),
        decreases b - a,
    {
        assert(s@.subrange(a as int, b as int).drop_last() == s@.subrange(a as int, b - 1));
        b = b - 1;
    }
    assert(sondan_kirp(s@.subrange(a as int, b as int)) == s@.subrange(a as int, b as int));
    let mut r: Vec<char> = Vec::new();
    let mut i: usize = a;
    while i < b
        invariant
            a <= i <= b,
            b <= n,
            n == s.len(),
            r@ == s@.subrange(a as int, i as int),
        decreases b - i,
    {
        r.push(s[i]);
        assert(s@.subrange(a as int, i + 1) == s@.subrange(a as int, i as int).push(s@[i as int]));
        i = i + 1;
    }
    r
}

/// Number of maximal runs of non-whitespace characters in `s`.
pub fn kelime_say(s: &Vec<char>) -> (r: usize)
    ensures
        r == kelime_sayisi(s@),
{
    let mut sayi: usize = 0;
    let mut i: usize = 0;
    while i < s.len()
        invariant
            i <= s.len(),
            sayi == kelime_sayisi(s@.take(i as int)),
            sayi <= i,
        decreases s.len() - i,
    {
        let ghost t = s@.take(i + 1);
        assert(t.drop_last() == s@.take(i as int));
        assert(t.last() == s@[i as int]);
        if !bosluk_mu(s[i]) && (i == 0 || bosluk_mu(s[i - 1])) {
            assert(i > 0 ==> t[t.len() - 2] == s@[i - 1]);
            sayi = sayi + 1;
        } else {
            assert(i > 0 ==> t[t.len() - 2] == s@[i - 1]);
        }
        i = i + 1;
    }
    assert(s@.take(s.len() as int) == s@);
    sayi
}

/// Whether `p` occurs in `s` at position `i`.
fn konumda_eslesir_mi(s: &Vec<char>, p: &Vec<char>, i: usize) -> (r: bool)
    requires
        i + p.len() <= s.len(),
    ensures
        r == konumda_eslesir(s@, p@, i as int),
{
    let mut j: usize = 0;
    while j < p.len()
        invariant
            j <= p.len(),
            i + p.len() <= s.len(),
            forall|k: int| 0 <= k < j ==> s@[i + k] == p@[k],
        decreases p.len() - j,
    {
        if s[i + j] != p[j] {
            assert(s@.subrange(i as int, i + p.len())[j as int] != p@[j as int]);
            return false;
        }
        j = j + 1;
    }
    assert(s@.subrange(i as int, i + p.len()) == p@);
    true
}

/// Whether `p` occurs somewhere in `s`.
pub fn icerir_mi(s: &Vec<char>, p: &Vec<char>) -> (r: bool)
    ensures
        r == icerir(s@, p@),
{
    if p.len() > s.len() {
        return false;
    }
    let son = s.len() - p.len();
    let mut i: usize = 0;
    while i <= son
        invariant
            son + p.len() == s.len(),
            forall|k: int| 0 <= k < i ==> !konumda_eslesir(s@, p@, k),
        decreases son + 1 - i,
    {
        if konumda_eslesir_mi(s, p, i) {
            return true;
        }
        if i == son {
            return false;
        }
        i = i + 1;
    }
    false
}

/// Whether `a` and `b` hold the same characters.
pub fn ayni_mi(a: &Vec<char>, b: &Vec<char>) -> (r: bool)
    ensures
        r == (a@ == b@),
{
    if a.len() != b.len() {
        return false;
    }
    let mut i: usize = 0;
    while i < a.len()
        invariant
            i <= a.len(),
            a.len() == b.len(),
            forall|j: int| 0 <= j < i ==> a@[j] == b@[j],
        decreases a.len() - i,
    {
        if a[i] != b[i] {
            return false;
        }
        i = i + 1;
    }
    assert(a@ =~= b@);
    true
}

/// Whether the characters `a` spell the text `b`.
pub fn metinle_ayni_mi(a: &Vec<char>, b: &str) -> (r: bool)
    ensures
        r == (a@ == b@),
{
    let bk = karakterler(b);
    ayni_mi(a, &bk)
}

/// Whether the character `c` occurs in `s`.
pub fn karakter_icerir_mi(s: &Vec<char>, c: char) -> (r: bool)
    ensures
        r == s@.contains(c),
{
    let mut i: usize = 0;
    while i < s.len()
        invariant
            i <= s.len(),
            forall|k: int| 0 <= k < i ==> s@[k] != c,
        decreases s.len() - i,
    {
        if s[i] == c {
            return true;
        }
        i = i + 1;
    }
    false
}

/// Appends all characters of `b` to `a`.
pub fn sona_ekle(a: &mut Vec<char>, b: &Vec<char>)
    ensures
        final(a)@ == old(a)@ + b@,
{
    let mut i: usize = 0;
    while i < b.len()
        invariant
            i <= b.len(),
            a@ == old(a)@ + b@.take(i as int),
        decreases b.len() - i,
    {
        a.push(b[i]);
        assert(b@.take(i + 1) == b@.take(i as int).push(b@[i as int]));
        i = i + 1;
    }
    assert(b@.take(b.len() as int) == b@);
}

/// The pieces of `p` joined with `ayirici` between consecutive pieces.
pub fn birlestirilmis(p: &Vec<Vec<char>>, ayirici: &Vec<char>) -> (r: Vec<char>)
    ensures
        r@ == birlestir(gorunum(p@), ayirici@),
{
    let mut r: Vec<char> = Vec::new();
    let mut i: usize = 0;
    while i < p.len()
        invariant
            i <= p.len(),
            r@ == birlestir(gorunum(p@).take(i as int), ayirici@),
        decreases p.len() - i,
    {
        let ghost onceki = gorunum(p@).take(i as int);
        assert(gorunum(p@).take(i + 1) == onceki.push(p@[i as int]@));
        if i > 0 {
            sona_ekle(&mut r, ayirici);
            proof {
                lemma_birlestir_push(onceki, p@[i as int]@, ayirici@);
            }
        } else {
            assert(onceki.push(p@[i as int]@).len() == 1);
        }
        sona_ekle(&mut r, &p[i]);
        i = i + 1;
    }
    assert(gorunum(p@).take(p.len() as int) == gorunum(p@));
    r
}

/// The lines of `s`, as `str::lines` yields them.
pub fn satirlara_bol(s: &Vec<char>) -> (r: Vec<Vec<char>>)
    ensures
        gorunum(r@) == satirlari(s@),
{
    let mut bitmis: Vec<Vec<char>> = Vec::new();
    let mut mevcut: Vec<char> = Vec::new();
    let mut i: usize = 0;
    while i < s.len()
        invariant
            i <= s.len(),
            parcala(s@.take(i as int)).len() >= 1,
            gorunum(bitmis@) == parcala(s@.take(i as int)).drop_last().map_values(
                |l: Seq<char>| satir_sonu_sil(l),
            ),
            mevcut@ == parcala(s@.take(i as int)).last(),
        decreases s.len() - i,
    {
        let ghost t = s@.take(i + 1);
        let ghost p = parcala(s@.take(i as int));
        assert(t.drop_last() == s@.take(i as int));
        assert(t.last() == s@[i as int]);
        let c = s[i];
        if c == '\n' {
            let mut satir = mevcut;
            if satir.len() > 0 && satir[satir.len() - 1] == '\r' {
                satir.pop();
            }
            assert(satir@ == satir_sonu_sil(p.last()));
            let ghost eski = bitmis@;
            bitmis.push(satir);
            assert(gorunum(bitmis@) =~= gorunum(eski).push(satir_sonu_sil(p.last())));
            mevcut = Vec::new();
            proof {
                assert(parcala(t) == p.push(Seq::empty()));
                assert(parcala(t).drop_last() == p);
                assert(p.map_values(|l: Seq<char>| satir_sonu_sil(l)) =~= p.drop_last().map_values(
                    |l: Seq<char>| satir_sonu_sil(l),
                ).push(satir_sonu_sil(p.last())));
            }
        } else {
            mevcut.push(c);
            proof {
                let q = p.update(p.len() - 1, p.last().push(c));
                assert(parcala(t) == q);
                assert(q.drop_last() == p.drop_last());
            }
        }
        i = i + 1;
    }
    assert(s@.take(s.len() as int) == s@);
    if mevcut.len() > 0 {
        bitmis.push(mevcut);
    }
    bitmis
}

/// `s` cut at every `'\n'`, as `str::split('\n')` cuts it.
pub fn parcalara_bol(s: &Vec<char>) -> (r: Vec<Vec<char>>)
    ensures
        gorunum(r@) == parcala(s@),
{
    let mut bitmis: Vec<Vec<char>> = Vec::new();
    let mut mevcut: Vec<char> = Vec::new();
    let mut i: usize = 0;
    while i < s.len()
        invariant
            i <= s.len(),
            parcala(s@.take(i as int)).len() >= 1,
            gorunum(bitmis@) == parcala(s@.take(i as int)).drop_last(),
            mevcut@ == parcala(s@.take(i as int)).last(),
        decreases s.len() - i,
    {
        let ghost t = s@.take(i + 1);
        let ghost p = parcala(s@.take(i as int));
        assert(t.drop_last() == s@.take(i as int));
        assert(t.last() == s@[i as int]);
        let c = s[i];
        if c == '\n' {
            let ghost eski = bitmis@;
            bitmis.push(mevcut);
            assert(gorunum(bitmis@) =~= gorunum(eski).push(p.last()));
            mevcut = Vec::new();
            assert(parcala(t) == p.push(Seq::empty()));
            assert(p.drop_last().push(p.last()) =~= p);
        } else {
            mevcut.push(c);
            proof {
                let q = p.update(p.len() - 1, p.last().push(c));
                assert(parcala(t) == q);
                assert(q.drop_last() == p.drop_last());
            }
        }
        i = i + 1;
    }
    assert(s@.take(s.len() as int) == s@);
    let ghost eski = bitmis@;
    bitmis.push(mevcut);
    assert(gorunum(bitmis@) =~= gorunum(eski).push(parcala(s@).last()));
    assert(parcala(s@).drop_last().push(parcala(s@).last()) =~= parcala(s@));
    bitmis
}

/// Joining a sequence whose last piece is replaced: the joined front, the separator,
/// then the new last piece.
proof fn lemma_birlestir_son(p: Seq<Seq<char>>, y: Seq<char>, ayirici: Seq<char>)
    requires
        p.len() >= 2,
    ensures
        birlestir(p.update(p.len() - 1, y), ayirici) == birlestir(p.drop_last(), ayirici)
            + ayirici + y,
{
    assert(p.update(p.len() - 1, y).drop_last() =~= p.drop_last());
}

/// The pieces of `s`, joined again with `'\n'`, give back `s`.
pub proof fn lemma_parcala_geri(s: Seq<char>)
    ensures
        birlestir(parcala(s), seq!['\n']) == s,
    decreases s.len(),
{
    if s.len() > 0 {
        let t = s.drop_last();
        lemma_parcala_geri(t);
        lemma_parcala_bos_degil(t);
        let p = parcala(t);
        let c = s.last();
        assert(t.push(c) =~= s);
        if c == '\n' {
            assert(p.push(Seq::empty()).drop_last() =~= p);
            assert(birlestir(p.push(Seq::empty()), seq!['\n']) == birlestir(p, seq!['\n'])
                + seq!['\n'] + Seq::<char>::empty());
            assert(t + seq!['\n'] + Seq::<char>::empty() =~= s);
        } else if p.len() == 1 {
            assert(p.update(0, p.last().push(c)).len() == 1);
            assert(birlestir(p, seq!['\n']) == p[0]);
            assert(p.last().push(c) =~= s);
        } else {
            lemma_birlestir_son(p, p.last().push(c), seq!['\n']);
            lemma_birlestir_son(p, p.last(), seq!['\n']);
            assert(p.update(p.len() - 1, p.last()) =~= p);
            assert(birlestir(p.drop_last(), seq!['\n']) + seq!['\n'] + p.last().push(c) =~= t.push(
                c,
            ));
        }
    } else {
        assert(birlestir(parcala(s), seq!['\n']) == Seq::<char>::empty());
    }
}

} // verus!
