//! Decimal notation of natural numbers: rendering (as `format!("{}")` and
//! `format!("{:04}")` write them), reading back, and the fact that rendering is
//! injective.

use vstd::prelude::*;

verus! {

/// The character of the decimal digit `d` (`d < 10`).
pub open spec fn rakam_karakteri(d: nat) -> char {
    ((48 + d) as u32) as char
}

/// The value of a decimal digit character.
pub open spec fn rakam_degeri(c: char) -> int {
    (c as u32) - 48
}

/// The decimal notation of `n`, without leading zeros (`"0"` for zero).
pub open spec fn ondalik(n: nat) -> Seq<char>
    decreases n,
{
    if n < 10 {
        seq![rakam_karakteri(n)]
    } else {
        ondalik(n / 10).push(rakam_karakteri(n % 10))
    }
}

/// `k` zero characters.
pub open spec fn sifirlar(k: nat) -> Seq<char> {
    Seq::new(k, |i: int| '0')
}

/// The decimal notation of `n`, left-padded with zeros to at least four characters.
pub open spec fn dort_haneli(n: nat) -> Seq<char> {
    let d = ondalik(n);
    if d.len() < 4 {
        sifirlar((4 - d.len()) as nat) + d
    } else {
        d
    }
}

/// The number that the decimal digits `s` spell.
pub open spec fn deger(s: Seq<char>) -> int
    decreases s.len(),
{
    if s.len() == 0 {
        0
    } else {
        deger(s.drop_last()) * 10 + rakam_degeri(s.last())
    }
}

/// A digit character has the value it stands for.
pub proof fn lemma_rakam(d: nat)
    requires
        d < 10,
    ensures
        rakam_karakteri(d) as u32 == 48 + d,
        rakam_degeri(rakam_karakteri(d)) == d,
        '0' <= rakam_karakteri(d) <= '9',
{
}

/// The decimal notation of `n` is not empty and reads back as `n`.
pub proof fn lemma_ondalik_deger(n: nat)
    ensures
        ondalik(n).len() >= 1,
        deger(ondalik(n)) == n,
        forall|i: int| 0 <= i < ondalik(n).len() ==> '0' <= #[trigger] ondalik(n)[i] <= '9',
    decreases n,
{
    if n < 10 {
        lemma_rakam(n);
        let s = ondalik(n);
        assert(s.drop_last() =~= Seq::<char>::empty());
        assert(deger(s.drop_last()) == 0);
        assert(deger(s) == deger(s.drop_last()) * 10 + rakam_degeri(s.last()));
    } else {
        lemma_ondalik_deger(n / 10);
        lemma_rakam(n % 10);
        let s = ondalik(n);
        assert(s.drop_last() == ondalik(n / 10));
        assert(s.last() == rakam_karakteri(n % 10));
        assert(deger(s) == deger(s.drop_last()) * 10 + rakam_degeri(s.last()));
        assert(n == (n / 10) * 10 + n % 10);
        assert forall|i: int| 0 <= i < s.len() implies '0' <= #[trigger] s[i] <= '9' by {
            if i < s.len() - 1 {
                assert(s[i] == ondalik(n / 10)[i]);
            }
        }
    }
}

/// Different numbers have different decimal notations.
pub proof fn lemma_ondalik_birebir(a: nat, b: nat)
    requires
        ondalik(a) == ondalik(b),
    ensures
        a == b,
{
    lemma_ondalik_deger(a);
    lemma_ondalik_deger(b);
}

/// Leading zeros do not change the value of digits.
proof fn lemma_sifirlar_deger(k: nat, d: Seq<char>)
    ensures
        deger(sifirlar(k) + d) == deger(d),
    decreases d.len(),
{
    if d.len() == 0 {
        lemma_sifirlar_sifir(k);
        assert(sifirlar(k) + d =~= sifirlar(k));
    } else {
        lemma_sifirlar_deger(k, d.drop_last());
        assert((sifirlar(k) + d).drop_last() =~= sifirlar(k) + d.drop_last());
    }
}

/// A run of zeros is worth zero.
proof fn lemma_sifirlar_sifir(k: nat)
    ensures
        deger(sifirlar(k)) == 0,
    decreases k,
{
    if k > 0 {
        lemma_sifirlar_sifir((k - 1) as nat);
        assert(sifirlar(k).drop_last() =~= sifirlar((k - 1) as nat));
        lemma_rakam(0);
    }
}

/// The four-digit notation of `n` reads back as `n`, so different numbers get different
/// four-digit notations.
pub proof fn lemma_dort_haneli_birebir(a: nat, b: nat)
    requires
        dort_haneli(a) == dort_haneli(b),
    ensures
        a == b,
{
    lemma_ondalik_deger(a);
    lemma_ondalik_deger(b);
    let da = ondalik(a);
    let db = ondalik(b);
    if da.len() < 4 {
        lemma_sifirlar_deger((4 - da.len()) as nat, da);
    }
    if db.len() < 4 {
        lemma_sifirlar_deger((4 - db.len()) as nat, db);
    }
}

/// The character of the decimal digit `d`.
pub fn rakam_karakteri_ver(d: usize) -> (r: char)
    requires
        d < 10,
    ensures
        r == rakam_karakteri(d as nat),
{
    let k: u8 = 48 + d as u8;
    k as char
}

/// Appends the decimal notation of `n` to `cikti`.
pub fn ondalik_ekle(n: usize, cikti: &mut Vec<char>)
    ensures
        final(cikti)@ == old(cikti)@ + ondalik(n as nat),
    decreases n,
{
    if n >= 10 {
        ondalik_ekle(n / 10, cikti);
    }
    let ghost onceki = cikti@;
    cikti.push(rakam_karakteri_ver(n % 10));
    proof {
        if n >= 10 {
            assert(cikti@ =~= old(cikti)@ + ondalik(n as nat));
        } else {
            assert(cikti@ =~= old(cikti)@ + ondalik(n as nat));
        }
    }
}

/// Appends the decimal notation of `n`, zero-padded to four characters, to `cikti`.
pub fn dort_haneli_ekle(n: usize, cikti: &mut Vec<char>)
    ensures
        final(cikti)@ == old(cikti)@ + dort_haneli(n as nat),
{
    let mut rakamlar: Vec<char> = Vec::new();
    ondalik_ekle(n, &mut rakamlar);
    assert(rakamlar@ =~= ondalik(n as nat));
    let mut eksik: usize = if rakamlar.len() < 4 {
        4 - rakamlar.len()
    } else {
        0
    };
    let ghost toplam_eksik = eksik;
    while eksik > 0
        invariant
            eksik <= toplam_eksik <= 4,
            cikti@ == old(cikti)@ + sifirlar((toplam_eksik - eksik) as nat),
        decreases eksik,
    {
        let ghost onceki = cikti@;
        cikti.push('0');
        assert(cikti@ =~= old(cikti)@ + sifirlar((toplam_eksik - eksik + 1) as nat));
        eksik = eksik - 1;
    }
    let ghost dolgu = cikti@;
    let mut i: usize = 0;
    while i < rakamlar.len()
        invariant
            i <= rakamlar.len(),
            cikti@ == dolgu + rakamlar@.take(i as int),
        decreases rakamlar.len() - i,
    {
        cikti.push(rakamlar[i]);
        assert(rakamlar@.take(i + 1) == rakamlar@.take(i as int).push(rakamlar@[i as int]));
        i = i + 1;
    }
    assert(rakamlar@.take(rakamlar.len() as int) == rakamlar@);
    assert(cikti@ =~= old(cikti)@ + dort_haneli(n as nat));
}

} // verus!
