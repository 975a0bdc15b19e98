//! Naming for the chronological rename command: the candidate names
//! `<prefix>_<number>[_<counter>].<ext>` for each file, and the decision, attempt by
//! attempt, whether a candidate is free.

use vstd::prelude::*;
use crate::metin::{dizeye_cevir, karakterler, sona_ekle};
use crate::ondalik::{lemma_ondalik_birebir, lemma_ondalik_deger, ondalik, ondalik_ekle};
use crate::uzanti::{dosya_uzantisi, son_nokta};

verus! {

broadcast use vstd::string::group_string_axioms;

/// The abstract contents of a vector of strings.
pub open spec fn dizeler(v: Seq<String>) -> Seq<Seq<char>> {
    v.map_values(|s: String| s@)
}

/// The candidate file name for `numara` at attempt `sayac`: `<on_ek>_<numara>.<uzanti>`
/// for the first attempt, `<on_ek>_<numara>_<sayac>.<uzanti>` after it.
pub open spec fn aday_ad(on_ek: Seq<char>, numara: nat, sayac: nat, uzanti: Seq<char>) -> Seq<
    char,
> {
    if sayac == 0 {
        on_ek + seq!['_'] + ondalik(numara) + seq!['.'] + uzanti
    } else {
        on_ek + seq!['_'] + ondalik(numara) + seq!['_'] + ondalik(sayac) + seq!['.'] + uzanti
    }
}

/// Different attempts give different candidate names.
pub proof fn lemma_aday_birebir(on_ek: Seq<char>, numara: nat, a: nat, b: nat, uzanti: Seq<char>)
    requires
        aday_ad(on_ek, numara, a, uzanti) == aday_ad(on_ek, numara, b, uzanti),
    ensures
        a == b,
{
    lemma_ondalik_deger(numara);
    lemma_ondalik_deger(a);
    lemma_ondalik_deger(b);
    let n = ondalik(numara);
    let on = on_ek + seq!['_'] + n + seq!['_'];
    if a != 0 && b != 0 {
        let da = ondalik(a);
        let db = ondalik(b);
        let sa = aday_ad(on_ek, numara, a, uzanti);
        assert(sa =~= on + da + seq!['.'] + uzanti);
        assert(aday_ad(on_ek, numara, b, uzanti) =~= on + db + seq!['.'] + uzanti);
        assert(da.len() == db.len());
        assert(sa.subrange(on.len() as int, (on.len() + da.len()) as int) =~= da);
        assert(aday_ad(on_ek, numara, b, uzanti).subrange(on.len() as int, (on.len() + db.len()) as int)
            =~= db);
        lemma_ondalik_birebir(a, b);
    } else if a != 0 || b != 0 {
        let c = if a != 0 {
            a
        } else {
            b
        };
        assert(aday_ad(on_ek, numara, 0, uzanti).len() + ondalik(c).len() + 1 == aday_ad(
            on_ek,
            numara,
            c,
            uzanti,
        ).len());
    }
}

/// Whether `ad` is one of the strings of `v`.
fn listede_var(v: &Vec<String>, ad: &String) -> (r: bool)
    ensures
        r == dizeler(v@).contains(ad@),
{
    let mut i: usize = 0;
    while i < v.len()
        invariant
            i <= v.len(),
            forall|j: int| 0 <= j < i ==> v@[j]@ != ad@,
        decreases v.len() - i,
    {
        if v[i] == *ad {
            assert(dizeler(v@)[i as int] == ad@);
            return true;
        }
        i = i + 1;
    }
    assert forall|j: int| 0 <= j < dizeler(v@).len() implies dizeler(v@)[j] != ad@ by {
        assert(dizeler(v@)[j] == v@[j]@);
    }
    false
}

/// The candidate file name for `number` at attempt `sayac`: `<prefix>_<number>.<ext>` for
/// the first attempt, `<prefix>_<number>_<sayac>.<ext>` after it.
pub fn aday_adi(prefix: &str, number: usize, sayac: usize, ext: &str) -> (r: String)
    ensures
        r@ == aday_ad(prefix@, number as nat, sayac as nat, ext@),
{
    let mut ad: Vec<char> = karakterler(prefix);
    ad.push('_');
    ondalik_ekle(number, &mut ad);
    if sayac != 0 {
        ad.push('_');
        ondalik_ekle(sayac, &mut ad);
    }
    ad.push('.');
    sona_ekle(&mut ad, &karakterler(ext));
    assert(ad@ =~= aday_ad(prefix@, number as nat, sayac as nat, ext@));
    dizeye_cevir(&ad)
}

/// One attempt of the search for a free name. The candidate for attempt `sayac` is taken
/// when this run already handed it out (it is in `used`) or the file system holds it
/// (`diskte_var`, which the caller learns by asking for that candidate). A free candidate
/// is added to `used` and returned; a taken one gives `None` and leaves `used` as it was,
/// and the caller goes on with attempt `sayac + 1`. Starting from attempt 0, the first
/// name returned is the first free candidate.
pub fn generate_unique_name(
    prefix: &str,
    number: usize,
    sayac: usize,
    used: &mut Vec<String>,
    ext: &str,
    diskte_var: bool,
) -> (r: Option<String>)
    ensures
        r is Some <==> !dizeler(old(used)@).contains(
            aday_ad(prefix@, number as nat, sayac as nat, ext@),
        ) && !diskte_var,
        r matches Some(ad) ==> ad@ == aday_ad(prefix@, number as nat, sayac as nat, ext@)
            && final(used)@ == old(used)@.push(ad),
        r is None ==> final(used)@ == old(used)@,
        dizeler(old(used)@).no_duplicates() ==> dizeler(final(used)@).no_duplicates(),
{
    let ad = aday_adi(prefix, number, sayac, ext);
    if diskte_var || listede_var(used, &ad) {
        return None;
    }
    let ghost kullanilan = dizeler(used@);
    used.push(ad.clone());
    proof {
        assert(dizeler(used@) =~= kullanilan.push(ad@));
        assert forall|i: int, j: int|
            0 <= i < j < dizeler(used@).len() && kullanilan.no_duplicates() implies dizeler(
            used@,
        )[i] != dizeler(used@)[j] by {
            if j == kullanilan.len() {
                assert(kullanilan[i] == dizeler(used@)[i]);
            }
        }
    }
    Some(ad)
}

/// Names handed out one after another on one shared `used` list, each of them not yet in
/// the list when it was handed out (as `generate_unique_name` ensures), never repeat: the
/// list they leave behind holds no name twice when the starting one did not, and none of
/// them was among the starting names.
pub proof fn lemma_ardisik_adlar(baslangic: Seq<Seq<char>>, sonuclar: Seq<Seq<char>>)
    requires
        baslangic.no_duplicates(),
        forall|i: int|
            0 <= i < sonuclar.len() ==> !(baslangic + sonuclar.take(i)).contains(
                #[trigger] sonuclar[i],
            ),
    ensures
        (baslangic + sonuclar).no_duplicates(),
        sonuclar.no_duplicates(),
        forall|i: int| 0 <= i < sonuclar.len() ==> !baslangic.contains(#[trigger] sonuclar[i]),
    decreases sonuclar.len(),
{
    if sonuclar.len() > 0 {
        let onceki = sonuclar.drop_last();
        let son = sonuclar.last();
        let n = sonuclar.len() - 1;
        assert forall|i: int| 0 <= i < onceki.len() implies !(baslangic + onceki.take(
            i,
        )).contains(#[trigger] onceki[i]) by {
            assert(onceki.take(i) =~= sonuclar.take(i));
            assert(onceki[i] == sonuclar[i]);
        }
        lemma_ardisik_adlar(baslangic, onceki);
        assert(sonuclar.take(n) =~= onceki);
        let a = baslangic + onceki;
        assert(!a.contains(son));
        assert(baslangic + sonuclar =~= a.push(son));
        assert forall|i: int, j: int|
            0 <= i < j < a.push(son).len() implies a.push(son)[i] != a.push(son)[j] by {
            if j == a.len() {
                assert(a.push(son)[i] == a[i]);
                assert(a.contains(a[i]));
            } else {
                assert(a.push(son)[i] == a[i] && a.push(son)[j] == a[j]);
            }
        }
        assert forall|i: int, j: int|
            0 <= i < j < sonuclar.len() implies sonuclar[i] != sonuclar[j] by {
            assert((baslangic + sonuclar)[baslangic.len() + i] == sonuclar[i]);
            assert((baslangic + sonuclar)[baslangic.len() + j] == sonuclar[j]);
        }
        assert forall|i: int| 0 <= i < sonuclar.len() implies !baslangic.contains(
            #[trigger] sonuclar[i],
        ) by {
            if i < n {
                assert(sonuclar[i] == onceki[i]);
            } else if baslangic.contains(son) {
                let k = choose|k: int| 0 <= k < baslangic.len() && baslangic[k] == son;
                assert(a[k] == son);
            }
        }
    }
}

/// Text without `'.'` after the last dot does not move the last dot.
proof fn lemma_son_nokta_sonek(y: Seq<char>, e: Seq<char>)
    requires
        !e.contains('.'),
    ensures
        son_nokta(y + e) == son_nokta(y),
    decreases e.len(),
{
    if e.len() == 0 {
        assert(y + e =~= y);
    } else {
        assert(!e.drop_last().contains('.')) by {
            if e.drop_last().contains('.') {
                let j = choose|j: int| 0 <= j < e.drop_last().len() && e.drop_last()[j] == '.';
                assert(e[j] == '.');
            }
        }
        lemma_son_nokta_sonek(y, e.drop_last());
        assert((y + e).drop_last() =~= y + e.drop_last());
        assert((y + e).last() == e.last());
        assert(e.contains(e.last()) ==> e.last() != '.');
        assert(e[e.len() - 1] == e.last());
    }
}

/// A renamed file keeps the target extension: when the extension holds no `'.'` (as the
/// target extension never does), the extension of every candidate name is that extension.
pub proof fn lemma_aday_uzantisi(on_ek: Seq<char>, numara: nat, sayac: nat, uzanti: Seq<char>)
    requires
        !uzanti.contains('.'),
    ensures
        dosya_uzantisi(aday_ad(on_ek, numara, sayac, uzanti)) == Some(uzanti),
{
    lemma_ondalik_deger(numara);
    lemma_ondalik_deger(sayac);
    let ad = aday_ad(on_ek, numara, sayac, uzanti);
    let x = if sayac == 0 {
        on_ek + seq!['_'] + ondalik(numara)
    } else {
        on_ek + seq!['_'] + ondalik(numara) + seq!['_'] + ondalik(sayac)
    };
    assert(ad =~= x.push('.') + uzanti);
    lemma_son_nokta_sonek(x.push('.'), uzanti);
    assert(son_nokta(x.push('.')) == x.len()) by {
        assert(x.push('.').last() == '.');
    }
    assert(x.len() >= 2);
    assert(ad.subrange((x.len() + 1) as int, ad.len() as int) =~= uzanti);
    if ad == seq!['.', '.'] {
        assert(ad.len() == 2);
    }
}

} // verus!
