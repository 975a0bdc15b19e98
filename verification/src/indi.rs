//! The models offered for download when no weights file is present, and reading the
//! user's choice among them.

use vstd::prelude::*;
use crate::metin::{
    ascii_rakam, ascii_rakam_mi, bastan_kirp, bosluk, karakterler, kirp, kirpilmis, sondan_kirp,
};
use crate::ondalik::{deger, lemma_ondalik_deger, ondalik};

verus! {

broadcast use vstd::string::group_string_axioms;

/// A model that can be downloaded: its display name, its repository, the file to fetch
/// and the name it is saved under.
pub struct ModelSecenegi {
    pub isim: &'static str,
    pub repo_id: &'static str,
    pub dosya_adi: &'static str,
    pub hedef_dosya_adi: &'static str,
}

/// The models offered, in menu order.
pub fn model_secenekleri() -> (r: Vec<ModelSecenegi>)
    ensures
        r.len() == 2,
        r[0].isim@ == "Qwen2-VL (Multilingual / Recommended)"@,
        r[0].repo_id@ == "Qwen/Qwen2-VL-7B-Instruct"@,
        r[0].dosya_adi@ == "model-00001-of-00004.safetensors"@,
        r[0].hedef_dosya_adi@ == "qwen2_vl.safetensors"@,
        r[1].isim@ == "Baidu Unlimited-OCR (Chinese/English)"@,
        r[1].repo_id@ == "baidu/Unlimited-OCR"@,
        r[1].dosya_adi@ == "model-00001-of-000001.safetensors"@,
        r[1].hedef_dosya_adi@ == "model-00001-of-000001.safetensors"@,
{
    let mut r: Vec<ModelSecenegi> = Vec::new();
    r.push(
        ModelSecenegi {
            isim: "Qwen2-VL (Multilingual / Recommended)",
            repo_id: "Qwen/Qwen2-VL-7B-Instruct",
            dosya_adi: "model-00001-of-00004.safetensors",
            hedef_dosya_adi: "qwen2_vl.safetensors",
        },
    );
    r.push(
        ModelSecenegi {
            isim: "Baidu Unlimited-OCR (Chinese/English)",
            repo_id: "baidu/Unlimited-OCR",
            dosya_adi: "model-00001-of-000001.safetensors",
            hedef_dosya_adi: "model-00001-of-000001.safetensors",
        },
    );
    r
}

/// The digits of an unsigned number as `str::parse::<usize>` reads them: the text
/// without one leading `'+'`.
pub open spec fn isaretsiz(s: Seq<char>) -> Seq<char> {
    if s.len() > 0 && s[0] == '+' {
        s.drop_first()
    } else {
        s
    }
}

/// The `usize` that `s` spells, as `str::parse::<usize>` reads it: an optional `'+'`,
/// then at least one ASCII digit and nothing else, with a value that fits.
pub open spec fn usize_oku(s: Seq<char>) -> Option<nat> {
    let d = isaretsiz(s);
    if d.len() > 0 && (forall|i: int| 0 <= i < d.len() ==> ascii_rakam(#[trigger] d[i])) && deger(d)
        <= usize::MAX {
        Some(deger(d) as nat)
    } else {
        None
    }
}

/// The menu index chosen by the line `girdi` among `secenek_sayisi` options: the trimmed
/// line must be a number from 1 to `secenek_sayisi`; the index is one less.
pub open spec fn secim(girdi: Seq<char>, secenek_sayisi: nat) -> Option<nat> {
    match usize_oku(kirp(girdi)) {
        Some(n) => if 1 <= n <= secenek_sayisi {
            Some((n - 1) as nat)
        } else {
            None
        },
        None => None,
    }
}

/// Appending a digit to digits never lowers their value.
proof fn lemma_deger_artar(s: Seq<char>, c: char)
    requires
        ascii_rakam(c),
        deger(s) >= 0,
    ensures
        deger(s.push(c)) >= deger(s),
        deger(s.push(c)) == deger(s) * 10 + (c as u32 - 48),
{
    assert(s.push(c).drop_last() == s);
}

/// The value of digits is at least the value of any prefix of them.
proof fn lemma_onek_degeri(s: Seq<char>, k: int)
    requires
        0 <= k <= s.len(),
        forall|i: int| 0 <= i < s.len() ==> ascii_rakam(#[trigger] s[i]),
    ensures
        deger(s) >= deger(s.take(k)) >= 0,
    decreases s.len() - k,
{
    if k == 0 {
        lemma_deger_negatif_degil(s);
        assert(s.take(0) =~= Seq::<char>::empty());
    } else if k < s.len() {
        lemma_onek_degeri(s, k + 1);
        assert(s.take(k + 1) == s.take(k).push(s[k]));
        lemma_deger_negatif_degil(s.take(k));
        lemma_deger_artar(s.take(k), s[k]);
    } else {
        assert(s.take(k) == s);
        lemma_deger_negatif_degil(s);
    }
}

/// Digits have a non-negative value.
proof fn lemma_deger_negatif_degil(s: Seq<char>)
    requires
        forall|i: int| 0 <= i < s.len() ==> ascii_rakam(#[trigger] s[i]),
    ensures
        deger(s) >= 0,
    decreases s.len(),
{
    if s.len() > 0 {
        assert forall|i: int| 0 <= i < s.drop_last().len() implies ascii_rakam(
            #[trigger] s.drop_last()[i],
        ) by {
            assert(s.drop_last()[i] == s[i]);
        }
        lemma_deger_negatif_degil(s.drop_last());
    }
}

/// The `usize` that `s` spells, as `str::parse::<usize>` reads it.
pub fn usize_olarak_oku(s: &Vec<char>) -> (r: Option<usize>)
    ensures
        r matches Some(n) ==> usize_oku(s@) == Some(n as nat),
        r is None ==> usize_oku(s@) is None,
{
    let bas: usize = if s.len() > 0 && s[0] == '+' {
        1
    } else {
        0
    };
    let ghost d = isaretsiz(s@);
    assert(d == s@.subrange(bas as int, s.len() as int));
    if bas >= s.len() {
        return None;
    }
    let mut deger_: usize = 0;
    let mut i: usize = bas;
    while i < s.len()
        invariant
            bas <= i <= s.len(),
            bas < s.len(),
            d == s@.subrange(bas as int, s.len() as int),
            d == isaretsiz(s@),
            forall|j: int| 0 <= j < i - bas ==> ascii_rakam(#[trigger] d[j]),
            deger_ == deger(d.take(i - bas)),
        decreases s.len() - i,
    {
        let c = s[i];
        let ghost k = i - bas;
        assert(d[k] == c);
        if !ascii_rakam_mi(c) {
            assert(!ascii_rakam(d[k]));
            return None;
        }
        let rakam = (c as u32 - 48) as usize;
        proof {
            assert(d.take(k + 1) == d.take(k).push(c));
            assert forall|j: int| 0 <= j < k implies ascii_rakam(#[trigger] d.take(k)[j]) by {
                assert(d.take(k)[j] == d[j]);
            }
            lemma_deger_negatif_degil(d.take(k));
            lemma_deger_artar(d.take(k), c);
        }
        if deger_ > (usize::MAX - rakam) / 10 {
            proof {
                assert(deger(d.take(k + 1)) > usize::MAX) by (nonlinear_arith)
                    requires
                        deger(d.take(k + 1)) == deger_ * 10 + rakam,
                        deger_ > (usize::MAX - rakam) / 10,
                        rakam <= 9,
                ;
                if forall|j: int| 0 <= j < d.len() ==> ascii_rakam(#[trigger] d[j]) {
                    lemma_onek_degeri(d, k + 1);
                    assert(deger(d) > usize::MAX);
                }
                assert(usize_oku(s@) is None);
            }
            return None;
        }
        deger_ = deger_ * 10 + rakam;
        i = i + 1;
    }
    assert(d.take(d.len() as int) == d);
    Some(deger_)
}

/// The menu index chosen by the line `girdi` among `secenek_sayisi` options.
pub fn secimi_coz(girdi: &str, secenek_sayisi: usize) -> (r: Option<usize>)
    ensures
        r matches Some(i) ==> secim(girdi@, secenek_sayisi as nat) == Some(i as nat),
        r is None ==> secim(girdi@, secenek_sayisi as nat) is None,
{
    let k = kirpilmis(&karakterler(girdi));
    match usize_olarak_oku(&k) {
        Some(n) => if n > 0 && n <= secenek_sayisi {
            Some(n - 1)
        } else {
            None
        },
        None => None,
    }
}

/// Typing the number that the menu shows beside an option chooses that option: the
/// decimal notation of `i + 1` selects index `i` among `secenek_sayisi` options.
pub proof fn lemma_menu_numarasi_secer(i: nat, secenek_sayisi: nat)
    requires
        i < secenek_sayisi,
        secenek_sayisi <= usize::MAX,
    ensures
        secim(ondalik(i + 1), secenek_sayisi) == Some(i),
{
    let d = ondalik(i + 1);
    lemma_ondalik_deger(i + 1);
    assert('0' <= d[0] <= '9');
    assert('0' <= d.last() <= '9');
    assert(!bosluk(d[0]) && !bosluk(d.last()));
    assert(bastan_kirp(d) == d);
    assert(sondan_kirp(d) == d);
    assert(kirp(d) == d);
    assert(isaretsiz(d) == d);
    assert forall|j: int| 0 <= j < d.len() implies ascii_rakam(#[trigger] d[j]) by {
        assert('0' <= d[j] <= '9');
    }
}

} // verus!
