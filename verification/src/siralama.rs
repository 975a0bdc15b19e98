//! Stable insertion sort of records by a total preorder, and the two orders the commands
//! sort by: file time then name (renaming), and path components (corpus and page files).

use vstd::prelude::*;

verus! {

/// Records compared by a total, transitive "comes no later than" relation.
pub trait SiraAnahtari: Sized {
    /// `self` comes no later than `diger`.
    spec fn once(&self, diger: &Self) -> bool;

    /// Of two records one comes no later than the other.
    proof fn lemma_tam(a: &Self, b: &Self)
        ensures
            a.once(b) || b.once(a),
    ;

    /// The order is transitive.
    proof fn lemma_gecisli(a: &Self, b: &Self, c: &Self)
        requires
            a.once(b),
            b.once(c),
        ensures
            a.once(c),
    ;

    /// Whether `self` comes no later than `diger`.
    fn once_mi(&self, diger: &Self) -> (r: bool)
        ensures
            r == self.once(diger),
    ;
}

/// `sira` lists every index below `n` exactly once.
pub open spec fn permutasyon(sira: Seq<usize>, n: nat) -> bool {
    &&& sira.len() == n
    &&& forall|i: int| 0 <= i < sira.len() ==> #[trigger] sira[i] < n
    &&& sira.no_duplicates()
}

/// The records taken in the order `sira` come in order.
pub open spec fn sirali<T: SiraAnahtari>(kayitlar: Seq<T>, sira: Seq<usize>) -> bool {
    forall|i: int, j: int|
        #![trigger kayitlar[sira[i] as int], kayitlar[sira[j] as int]]
        0 <= i < j < sira.len() ==> kayitlar[sira[i] as int].once(&kayitlar[sira[j] as int])
}

/// Records that come equally early are taken in their listed order.
pub open spec fn kararli<T: SiraAnahtari>(kayitlar: Seq<T>, sira: Seq<usize>) -> bool {
    forall|i: int, j: int|
        #![trigger kayitlar[sira[i] as int], kayitlar[sira[j] as int]]
        0 <= i < j < sira.len() && kayitlar[sira[j] as int].once(&kayitlar[sira[i] as int])
            ==> sira[i] < sira[j]
}

/// The order in which to take the records: every index once, in order, records that come
/// equally early in their listed order.
pub fn sirala<T: SiraAnahtari>(kayitlar: &Vec<T>) -> (r: Vec<usize>)
    ensures
        permutasyon(r@, kayitlar.len() as nat),
        sirali(kayitlar@, r@),
        kararli(kayitlar@, r@),
{
    let mut sira: Vec<usize> = Vec::new();
    let mut k: usize = 0;
    while k < kayitlar.len()
        invariant
            k <= kayitlar.len(),
            sira.len() == k,
            forall|i: int| 0 <= i < sira.len() ==> #[trigger] sira@[i] < k,
            sira@.no_duplicates(),
            sirali(kayitlar@, sira@),
            kararli(kayitlar@, sira@),
        decreases kayitlar.len() - k,
    {
        let ghost yeni = kayitlar@[k as int];
        let mut p: usize = 0;
        while p < sira.len() && kayitlar[sira[p]].once_mi(&kayitlar[k])
            invariant
                p <= sira.len(),
                sira.len() == k,
                k < kayitlar.len(),
                yeni == kayitlar@[k as int],
                forall|i: int| 0 <= i < sira.len() ==> #[trigger] sira@[i] < k,
                forall|i: int| 0 <= i < p ==> (#[trigger] kayitlar@[sira@[i] as int]).once(&yeni),
            decreases sira.len() - p,
        {
            p = p + 1;
        }
        proof {
            if p < sira.len() {
                let b = kayitlar@[sira@[p as int] as int];
                T::lemma_tam(&b, &yeni);
                assert(yeni.once(&b));
            }
        }
        let ghost eski = sira@;
        sira.insert(p, k);
        proof {
            assert(sira@ == eski.insert(p as int, k));
            assert forall|i: int| 0 <= i < sira.len() implies #[trigger] sira@[i] < k + 1 by {
                if i < p {
                    assert(sira@[i] == eski[i]);
                } else if i > p {
                    assert(sira@[i] == eski[i - 1]);
                }
            }
            assert forall|i: int, j: int| 0 <= i < j < sira.len() implies sira@[i] != sira@[j] by {
                if i < p && j > p {
                    assert(sira@[i] == eski[i] && sira@[j] == eski[j - 1]);
                } else if i < p && j < p {
                    assert(sira@[i] == eski[i] && sira@[j] == eski[j]);
                } else if i > p {
                    assert(sira@[i] == eski[i - 1] && sira@[j] == eski[j - 1]);
                } else if i == p {
                    assert(sira@[j] == eski[j - 1]);
                } else {
                    assert(sira@[i] == eski[i]);
                }
            }
            assert forall|i: int, j: int|
                #![trigger kayitlar@[sira@[i] as int], kayitlar@[sira@[j] as int]]
                0 <= i < j < sira.len() implies kayitlar@[sira@[i] as int].once(
                &kayitlar@[sira@[j] as int],
            ) by {
                let a = kayitlar@[sira@[i] as int];
                let c = kayitlar@[sira@[j] as int];
                if i < p && j < p {
                    assert(sira@[i] == eski[i] && sira@[j] == eski[j]);
                } else if i > p {
                    assert(sira@[i] == eski[i - 1] && sira@[j] == eski[j - 1]);
                } else if i < p && j == p {
                    assert(sira@[i] == eski[i]);
                } else if i == p {
                    assert(sira@[j] == eski[j - 1]);
                    let b = kayitlar@[eski[p as int] as int];
                    assert(yeni.once(&b));
                    if p < j - 1 {
                        assert(b.once(&c));
                        T::lemma_gecisli(&yeni, &b, &c);
                    }
                } else {
                    assert(i < p && j > p);
                    assert(sira@[i] == eski[i] && sira@[j] == eski[j - 1]);
                    let b = kayitlar@[eski[p as int] as int];
                    assert(a.once(&yeni));
                    assert(yeni.once(&b));
                    if p < j - 1 {
                        assert(b.once(&c));
                        T::lemma_gecisli(&yeni, &b, &c);
                    }
                    T::lemma_gecisli(&a, &yeni, &c);
                }
            }
            assert forall|i: int, j: int|
                #![trigger kayitlar@[sira@[i] as int], kayitlar@[sira@[j] as int]]
                0 <= i < j < sira.len() && kayitlar@[sira@[j] as int].once(
                    &kayitlar@[sira@[i] as int],
                ) implies sira@[i] < sira@[j] by {
                let a = kayitlar@[sira@[i] as int];
                let c = kayitlar@[sira@[j] as int];
                if j < p {
                    assert(sira@[i] == eski[i] && sira@[j] == eski[j]);
                } else if i > p {
                    assert(sira@[i] == eski[i - 1] && sira@[j] == eski[j - 1]);
                } else if i < p && j > p {
                    assert(sira@[i] == eski[i] && sira@[j] == eski[j - 1]);
                } else if j == p {
                    assert(sira@[i] == eski[i]);
                } else {
                    assert(i == p);
                    assert(sira@[j] == eski[j - 1]);
                    let b = kayitlar@[eski[p as int] as int];
                    assert(!b.once(&yeni));
                    if p < j - 1 {
                        assert(b.once(&c));
                        T::lemma_gecisli(&b, &c, &yeni);
                    }
                    assert(false);
                }
            }
        }
        k = k + 1;
    }
    sira
}

/// `x` comes no later than `y` in byte-wise lexicographic order (how file names compare).
pub open spec fn sozluk_sirasi(x: Seq<u8>, y: Seq<u8>) -> bool
    decreases x.len(),
{
    if x.len() == 0 {
        true
    } else if y.len() == 0 {
        false
    } else if x[0] != y[0] {
        x[0] < y[0]
    } else {
        sozluk_sirasi(x.drop_first(), y.drop_first())
    }
}

/// Of two byte strings, one comes no later than the other.
pub proof fn lemma_sozluk_tam(x: Seq<u8>, y: Seq<u8>)
    ensures
        sozluk_sirasi(x, y) || sozluk_sirasi(y, x),
    decreases x.len(),
{
    if x.len() > 0 && y.len() > 0 && x[0] == y[0] {
        lemma_sozluk_tam(x.drop_first(), y.drop_first());
    }
}

/// Every byte string comes no later than itself.
pub proof fn lemma_sozluk_yansimali(x: Seq<u8>)
    ensures
        sozluk_sirasi(x, x),
    decreases x.len(),
{
    if x.len() > 0 {
        lemma_sozluk_yansimali(x.drop_first());
    }
}

/// Two byte strings that each come no later than the other are equal.
pub proof fn lemma_sozluk_antisimetrik(x: Seq<u8>, y: Seq<u8>)
    requires
        sozluk_sirasi(x, y),
        sozluk_sirasi(y, x),
    ensures
        x == y,
    decreases x.len(),
{
    if x.len() > 0 && y.len() > 0 {
        lemma_sozluk_antisimetrik(x.drop_first(), y.drop_first());
        assert(x =~= seq![x[0]] + x.drop_first());
        assert(y =~= seq![y[0]] + y.drop_first());
    } else {
        assert(x =~= y);
    }
}

/// Lexicographic order is transitive.
pub proof fn lemma_sozluk_gecisli(x: Seq<u8>, y: Seq<u8>, z: Seq<u8>)
    requires
        sozluk_sirasi(x, y),
        sozluk_sirasi(y, z),
    ensures
        sozluk_sirasi(x, z),
    decreases x.len(),
{
    if x.len() > 0 && y.len() > 0 && z.len() > 0 && x[0] == y[0] && y[0] == z[0] {
        lemma_sozluk_gecisli(x.drop_first(), y.drop_first(), z.drop_first());
    }
}

/// Whether byte string `x` comes no later than `y`.
pub fn sozluk_sirasi_mi(x: &Vec<u8>, y: &Vec<u8>) -> (r: bool)
    ensures
        r == sozluk_sirasi(x@, y@),
{
    let mut i: usize = 0;
    assert(x@.skip(0) == x@ && y@.skip(0) == y@);
    while i < x.len() && i < y.len() && x[i] == y[i]
        invariant
            i <= x.len(),
            i <= y.len(),
            sozluk_sirasi(x@, y@) == sozluk_sirasi(x@.skip(i as int), y@.skip(i as int)),
        decreases x.len() - i,
    {
        assert(x@.skip(i as int).drop_first() == x@.skip(i + 1));
        assert(y@.skip(i as int).drop_first() == y@.skip(i + 1));
        i = i + 1;
    }
    if i == x.len() {
        true
    } else if i == y.len() {
        false
    } else {
        assert(x@.skip(i as int)[0] == x@[i as int]);
        assert(y@.skip(i as int)[0] == y@[i as int]);
        x[i] < y[i]
    }
}

/// A file to rename: the time it was created (or else last modified), in nanoseconds
/// from the Unix epoch, and its file name as bytes.
pub struct DosyaZamani {
    pub zaman: i128,
    pub ad: Vec<u8>,
}

impl SiraAnahtari for DosyaZamani {
    /// Older first; files of the same time by name.
    open spec fn once(&self, diger: &Self) -> bool {
        self.zaman < diger.zaman || (self.zaman == diger.zaman && sozluk_sirasi(
            self.ad@,
            diger.ad@,
        ))
    }

    proof fn lemma_tam(a: &Self, b: &Self) {
        lemma_sozluk_tam(a.ad@, b.ad@);
    }

    proof fn lemma_gecisli(a: &Self, b: &Self, c: &Self) {
        if a.zaman == b.zaman && b.zaman == c.zaman {
            lemma_sozluk_gecisli(a.ad@, b.ad@, c.ad@);
        }
    }

    fn once_mi(&self, diger: &Self) -> (r: bool) {
        self.zaman < diger.zaman || (self.zaman == diger.zaman && sozluk_sirasi_mi(
            &self.ad,
            &diger.ad,
        ))
    }
}

/// Two byte strings that agree before position `k` and differ there are ordered by their
/// bytes at `k`, whatever their lengths.
pub proof fn lemma_sozluk_ilk_fark(x: Seq<u8>, y: Seq<u8>, k: int)
    requires
        0 <= k < x.len(),
        k < y.len(),
        x.take(k) == y.take(k),
        x[k] < y[k],
    ensures
        sozluk_sirasi(x, y),
        !sozluk_sirasi(y, x),
    decreases k,
{
    if k > 0 {
        assert(x[0] == x.take(k)[0] && y[0] == y.take(k)[0]);
        assert(x.drop_first().take(k - 1) =~= x.take(k).drop_first());
        assert(y.drop_first().take(k - 1) =~= y.take(k).drop_first());
        lemma_sozluk_ilk_fark(x.drop_first(), y.drop_first(), k - 1);
    }
}

/// A byte string comes no later than every string it begins.
pub proof fn lemma_sozluk_onek(x: Seq<u8>, y: Seq<u8>)
    requires
        x.len() <= y.len(),
        y.take(x.len() as int) == x,
    ensures
        sozluk_sirasi(x, y),
    decreases x.len(),
{
    if x.len() > 0 {
        assert(x[0] == y.take(x.len() as int)[0]);
        assert(y.drop_first().take(x.drop_first().len() as int) =~= x.drop_first());
        lemma_sozluk_onek(x.drop_first(), y.drop_first());
    }
}

/// The renaming order: an older file comes strictly first; of two files of the same time,
/// the first byte where their names differ decides, whatever the lengths of the names,
/// and a name comes no later than every longer name it begins.
pub proof fn lemma_dosya_sirasi(a: DosyaZamani, b: DosyaZamani, k: int)
    ensures
        a.zaman < b.zaman ==> a.once(&b) && !b.once(&a),
        a.zaman == b.zaman && 0 <= k < a.ad@.len() && k < b.ad@.len() && a.ad@.take(k) == b.ad@.take(k)
            && a.ad@[k] < b.ad@[k] ==> a.once(&b) && !b.once(&a),
        a.zaman == b.zaman && a.ad@.len() <= b.ad@.len() && b.ad@.take(a.ad@.len() as int)
            == a.ad@ ==> a.once(&b),
{
    if a.zaman == b.zaman && 0 <= k < a.ad@.len() && k < b.ad@.len() && a.ad@.take(k) == b.ad@.take(
        k,
    ) && a.ad@[k] < b.ad@[k] {
        lemma_sozluk_ilk_fark(a.ad@, b.ad@, k);
    }
    if a.zaman == b.zaman && a.ad@.len() <= b.ad@.len() && b.ad@.take(a.ad@.len() as int) == a.ad@ {
        lemma_sozluk_onek(a.ad@, b.ad@);
    }
}

/// A path as the byte strings of its components.
pub struct YolBilesenleri {
    pub bilesenler: Vec<Vec<u8>>,
}

/// The abstract components of a path.
pub open spec fn bilesen_gorunumu(y: Seq<Vec<u8>>) -> Seq<Seq<u8>> {
    y.map_values(|b: Vec<u8>| b@)
}

/// Path `x` comes no later than `y`: the components compared in turn, the first
/// differing one deciding by bytes, and a path before any longer path it begins.
pub open spec fn yol_sirasi(x: Seq<Seq<u8>>, y: Seq<Seq<u8>>) -> bool
    decreases x.len(),
{
    if x.len() == 0 {
        true
    } else if y.len() == 0 {
        false
    } else if x[0] != y[0] {
        sozluk_sirasi(x[0], y[0])
    } else {
        yol_sirasi(x.drop_first(), y.drop_first())
    }
}

/// Of two paths one comes no later than the other.
proof fn lemma_yol_tam(x: Seq<Seq<u8>>, y: Seq<Seq<u8>>)
    ensures
        yol_sirasi(x, y) || yol_sirasi(y, x),
    decreases x.len(),
{
    if x.len() > 0 && y.len() > 0 {
        if x[0] == y[0] {
            lemma_yol_tam(x.drop_first(), y.drop_first());
        } else {
            lemma_sozluk_tam(x[0], y[0]);
        }
    }
}

/// Path order is transitive.
proof fn lemma_yol_gecisli(x: Seq<Seq<u8>>, y: Seq<Seq<u8>>, z: Seq<Seq<u8>>)
    requires
        yol_sirasi(x, y),
        yol_sirasi(y, z),
    ensures
        yol_sirasi(x, z),
    decreases x.len(),
{
    if x.len() > 0 && y.len() > 0 && z.len() > 0 {
        if x[0] == y[0] && y[0] == z[0] {
            lemma_yol_gecisli(x.drop_first(), y.drop_first(), z.drop_first());
        } else if x[0] != y[0] && y[0] != z[0] {
            lemma_sozluk_gecisli(x[0], y[0], z[0]);
            if x[0] == z[0] {
                lemma_sozluk_antisimetrik(x[0], y[0]);
            }
        }
    }
}

/// Whether path `x` comes no later than path `y`.
fn yol_sirasi_mi(x: &Vec<Vec<u8>>, y: &Vec<Vec<u8>>) -> (r: bool)
    ensures
        r == yol_sirasi(bilesen_gorunumu(x@), bilesen_gorunumu(y@)),
{
    let ghost xs = bilesen_gorunumu(x@);
    let ghost ys = bilesen_gorunumu(y@);
    let mut i: usize = 0;
    assert(xs.skip(0) == xs && ys.skip(0) == ys);
    loop
        invariant
            i <= x.len(),
            i <= y.len(),
            xs == bilesen_gorunumu(x@),
            ys == bilesen_gorunumu(y@),
            yol_sirasi(xs, ys) == yol_sirasi(xs.skip(i as int), ys.skip(i as int)),
        decreases x.len() - i,
    {
        if i == x.len() {
            return true;
        }
        if i == y.len() {
            return false;
        }
        assert(xs.skip(i as int)[0] == x@[i as int]@);
        assert(ys.skip(i as int)[0] == y@[i as int]@);
        let esit = sozluk_sirasi_mi(&x[i], &y[i]) && sozluk_sirasi_mi(&y[i], &x[i]);
        proof {
            if sozluk_sirasi(x@[i as int]@, y@[i as int]@) && sozluk_sirasi(
                y@[i as int]@,
                x@[i as int]@,
            ) {
                lemma_sozluk_antisimetrik(x@[i as int]@, y@[i as int]@);
            }
            if x@[i as int]@ == y@[i as int]@ {
                lemma_sozluk_yansimali(x@[i as int]@);
            }
        }
        if !esit {
            return sozluk_sirasi_mi(&x[i], &y[i]);
        }
        assert(xs.skip(i as int).drop_first() == xs.skip(i + 1));
        assert(ys.skip(i as int).drop_first() == ys.skip(i + 1));
        i = i + 1;
    }
}

impl SiraAnahtari for YolBilesenleri {
    /// Component by component.
    open spec fn once(&self, diger: &Self) -> bool {
        yol_sirasi(bilesen_gorunumu(self.bilesenler@), bilesen_gorunumu(diger.bilesenler@))
    }

    proof fn lemma_tam(a: &Self, b: &Self) {
        lemma_yol_tam(bilesen_gorunumu(a.bilesenler@), bilesen_gorunumu(b.bilesenler@));
    }

    proof fn lemma_gecisli(a: &Self, b: &Self, c: &Self) {
        lemma_yol_gecisli(
            bilesen_gorunumu(a.bilesenler@),
            bilesen_gorunumu(b.bilesenler@),
            bilesen_gorunumu(c.bilesenler@),
        );
    }

    fn once_mi(&self, diger: &Self) -> (r: bool) {
        yol_sirasi_mi(&self.bilesenler, &diger.bilesenler)
    }
}

/// Two paths that agree before component `k` and differ there are ordered by those
/// components, byte by byte, whatever the number of components.
proof fn lemma_yol_ilk_fark(x: Seq<Seq<u8>>, y: Seq<Seq<u8>>, k: int)
    requires
        0 <= k < x.len(),
        k < y.len(),
        x.take(k) == y.take(k),
        x[k] != y[k],
    ensures
        yol_sirasi(x, y) == sozluk_sirasi(x[k], y[k]),
        yol_sirasi(y, x) == sozluk_sirasi(y[k], x[k]),
    decreases k,
{
    if k > 0 {
        assert(x[0] == x.take(k)[0] && y[0] == y.take(k)[0]);
        assert(x.drop_first().take(k - 1) =~= x.take(k).drop_first());
        assert(y.drop_first().take(k - 1) =~= y.take(k).drop_first());
        lemma_yol_ilk_fark(x.drop_first(), y.drop_first(), k - 1);
    }
}

/// A path comes no later than every longer path it begins.
proof fn lemma_yol_onek(x: Seq<Seq<u8>>, y: Seq<Seq<u8>>)
    requires
        x.len() <= y.len(),
        y.take(x.len() as int) == x,
    ensures
        yol_sirasi(x, y),
    decreases x.len(),
{
    if x.len() > 0 {
        assert(x[0] == y.take(x.len() as int)[0]);
        assert(y.drop_first().take(x.drop_first().len() as int) =~= x.drop_first());
        lemma_yol_onek(x.drop_first(), y.drop_first());
    }
}

/// The numbering order of `forge` and `quozart7`: the first component where two paths
/// differ decides, by bytes (the first differing byte, whatever the lengths), and a path
/// comes no later than every longer path it begins.
pub proof fn lemma_yol_sirasi(a: YolBilesenleri, b: YolBilesenleri, k: int, j: int)
    ensures
        ({
            let x = bilesen_gorunumu(a.bilesenler@);
            let y = bilesen_gorunumu(b.bilesenler@);
            0 <= k < x.len() && k < y.len() && x.take(k) == y.take(k) && 0 <= j < x[k].len() && j
                < y[k].len() && x[k].take(j) == y[k].take(j) && x[k][j] < y[k][j] ==> a.once(&b)
                && !b.once(&a)
        }),
        ({
            let x = bilesen_gorunumu(a.bilesenler@);
            let y = bilesen_gorunumu(b.bilesenler@);
            x.len() <= y.len() && y.take(x.len() as int) == x ==> a.once(&b)
        }),
{
    let x = bilesen_gorunumu(a.bilesenler@);
    let y = bilesen_gorunumu(b.bilesenler@);
    if 0 <= k < x.len() && k < y.len() && x.take(k) == y.take(k) && 0 <= j < x[k].len() && j
        < y[k].len() && x[k].take(j) == y[k].take(j) && x[k][j] < y[k][j] {
        lemma_sozluk_ilk_fark(x[k], y[k], j);
        lemma_yol_ilk_fark(x, y, k);
    }
    if x.len() <= y.len() && y.take(x.len() as int) == x {
        lemma_yol_onek(x, y);
    }
}

/// The order in which `destiny` renames the files: every file once, oldest first, files
/// of the same time by name.
pub fn kronolojik_sira(dosyalar: &Vec<DosyaZamani>) -> (r: Vec<usize>)
    ensures
        permutasyon(r@, dosyalar.len() as nat),
        sirali(dosyalar@, r@),
        kararli(dosyalar@, r@),
{
    sirala(dosyalar)
}

/// The order in which `forge` and `quozart7` number their files: every path once, in
/// path order.
pub fn yol_sirasi_bul(yollar: &Vec<YolBilesenleri>) -> (r: Vec<usize>)
    ensures
        permutasyon(r@, yollar.len() as nat),
        sirali(yollar@, r@),
        kararli(yollar@, r@),
{
    sirala(yollar)
}

} // verus!
