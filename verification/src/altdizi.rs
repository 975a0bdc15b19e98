//! Subsequences: one text found in another in order, not necessarily contiguously, and
//! how that carries over to texts joined from pieces.

use vstd::prelude::*;
use crate::metin::birlestir;

verus! {

/// `f` places the items of `a` in `b`, in order: item `i` of `a` is item `f(i)` of `b`,
/// and later items go to later places.
pub open spec fn yerlestirme<A>(f: spec_fn(int) -> int, a: Seq<A>, b: Seq<A>) -> bool {
    &&& forall|i: int| 0 <= i < a.len() ==> 0 <= #[trigger] f(i) < b.len() && a[i] == b[f(i)]
    &&& forall|i: int, j: int| 0 <= i < j < a.len() ==> #[trigger] f(i) < #[trigger] f(j)
}

/// `a` is a subsequence of `b`: `b` with some items taken out.
pub open spec fn alt_dizi<A>(a: Seq<A>, b: Seq<A>) -> bool {
    exists|f: spec_fn(int) -> int| #[trigger] yerlestirme(f, a, b)
}

/// Every sequence is a subsequence of itself.
pub proof fn lemma_alt_dizi_kendisi<A>(a: Seq<A>)
    ensures
        alt_dizi(a, a),
{
    let f = |i: int| i;
    assert(yerlestirme(f, a, a));
}

/// The empty sequence is a subsequence of every sequence.
pub proof fn lemma_alt_dizi_bos<A>(b: Seq<A>)
    ensures
        alt_dizi(Seq::<A>::empty(), b),
{
    let f = |i: int| i;
    assert(yerlestirme(f, Seq::<A>::empty(), b));
}

/// A subsequence of `b` is one of `b + c` and of `c + b` as well.
pub proof fn lemma_alt_dizi_uzat<A>(a: Seq<A>, b: Seq<A>, c: Seq<A>)
    requires
        alt_dizi(a, b),
    ensures
        alt_dizi(a, b + c),
        alt_dizi(a, c + b),
{
    let f = choose|f: spec_fn(int) -> int| yerlestirme(f, a, b);
    assert(yerlestirme(f, a, b + c));
    let g = |i: int| f(i) + c.len();
    assert forall|i: int| 0 <= i < a.len() implies 0 <= #[trigger] g(i) < (c + b).len() && a[i] == (c
        + b)[g(i)] by {
        assert(0 <= f(i) < b.len());
    }
    assert forall|i: int, j: int| 0 <= i < j < a.len() implies #[trigger] g(i) < #[trigger] g(j) by {
        assert(f(i) < f(j));
    }
    assert(yerlestirme(g, a, c + b));
}

/// Subsequences of two texts, put one after the other, form a subsequence of the two
/// texts put one after the other.
pub proof fn lemma_alt_dizi_ekle<A>(a1: Seq<A>, b1: Seq<A>, a2: Seq<A>, b2: Seq<A>)
    requires
        alt_dizi(a1, b1),
        alt_dizi(a2, b2),
    ensures
        alt_dizi(a1 + a2, b1 + b2),
{
    let f1 = choose|f: spec_fn(int) -> int| yerlestirme(f, a1, b1);
    let f2 = choose|f: spec_fn(int) -> int| yerlestirme(f, a2, b2);
    let n = a1.len() as int;
    let g = |i: int|
        if i < n {
            f1(i)
        } else {
            b1.len() + f2(i - n)
        };
    let a = a1 + a2;
    let b = b1 + b2;
    assert forall|i: int| 0 <= i < a.len() implies 0 <= #[trigger] g(i) < b.len() && a[i] == b[g(
        i,
    )] by {
        if i < n {
            assert(0 <= f1(i) < b1.len());
        } else {
            assert(0 <= f2(i - n) < b2.len());
        }
    }
    assert forall|i: int, j: int| 0 <= i < j < a.len() implies #[trigger] g(i) < #[trigger] g(j) by {
        if j < n {
            assert(f1(i) < f1(j));
        } else if i < n {
            assert(0 <= f1(i) < b1.len());
            assert(0 <= f2(j - n));
        } else {
            assert(f2(i - n) < f2(j - n));
        }
    }
    assert(yerlestirme(g, a, b));
}

/// Items placed in order go no earlier than their own position.
proof fn lemma_yerlestirme_ilerler<A>(f: spec_fn(int) -> int, a: Seq<A>, b: Seq<A>, i: int)
    requires
        yerlestirme(f, a, b),
        0 <= i < a.len(),
    ensures
        f(i) >= i,
    decreases i,
{
    if i > 0 {
        lemma_yerlestirme_ilerler(f, a, b, i - 1);
        assert(f(i - 1) < f(i));
    } else {
        assert(0 <= f(0));
    }
}

/// A subsequence is no longer than the sequence it is taken from.
pub proof fn lemma_alt_dizi_uzunluk<A>(a: Seq<A>, b: Seq<A>)
    requires
        alt_dizi(a, b),
    ensures
        a.len() <= b.len(),
{
    if a.len() > 0 {
        let f = choose|f: spec_fn(int) -> int| yerlestirme(f, a, b);
        lemma_yerlestirme_ilerler(f, a, b, a.len() - 1);
        assert(f(a.len() - 1) < b.len());
    }
}

/// The pieces `q` can be matched, in order, to some of the pieces `p`, each piece of `q`
/// a subsequence of the piece of `p` it is matched to.
pub open spec fn gomulu(q: Seq<Seq<char>>, p: Seq<Seq<char>>) -> bool
    decreases p.len(),
{
    if q.len() == 0 {
        true
    } else if p.len() == 0 {
        false
    } else {
        (alt_dizi(q.last(), p.last()) && gomulu(q.drop_last(), p.drop_last())) || gomulu(
            q,
            p.drop_last(),
        )
    }
}

/// Matching keeps the pieces at least as many.
pub proof fn lemma_gomulu_uzunluk(q: Seq<Seq<char>>, p: Seq<Seq<char>>)
    requires
        gomulu(q, p),
    ensures
        q.len() <= p.len(),
    decreases p.len(),
{
    if q.len() > 0 {
        if alt_dizi(q.last(), p.last()) && gomulu(q.drop_last(), p.drop_last()) {
            lemma_gomulu_uzunluk(q.drop_last(), p.drop_last());
        } else {
            lemma_gomulu_uzunluk(q, p.drop_last());
        }
    }
}

/// A further piece of `p` leaves a matching in place.
pub proof fn lemma_gomulu_ekle(q: Seq<Seq<char>>, p: Seq<Seq<char>>, x: Seq<char>)
    requires
        gomulu(q, p),
    ensures
        gomulu(q, p.push(x)),
{
    assert(p.push(x).drop_last() =~= p);
}

/// A further piece of each, the new one of `q` a subsequence of the new one of `p`,
/// extends a matching.
pub proof fn lemma_gomulu_ikisine_ekle(q: Seq<Seq<char>>, p: Seq<Seq<char>>, y: Seq<char>, x: Seq<
    char,
>)
    requires
        gomulu(q, p),
        alt_dizi(y, x),
    ensures
        gomulu(q.push(y), p.push(x)),
{
    assert(p.push(x).drop_last() =~= p);
    assert(q.push(y).drop_last() =~= q);
}

/// Pieces matched in order, joined by the same separator, give a subsequence of the
/// joined pieces they are matched to.
pub proof fn lemma_gomulu_birlesim(q: Seq<Seq<char>>, p: Seq<Seq<char>>, ayirici: Seq<char>)
    requires
        gomulu(q, p),
    ensures
        alt_dizi(birlestir(q, ayirici), birlestir(p, ayirici)),
    decreases p.len(),
{
    if q.len() == 0 {
        lemma_alt_dizi_bos(birlestir(p, ayirici));
    } else {
        let q1 = q.drop_last();
        let p1 = p.drop_last();
        let bp1 = birlestir(p1, ayirici);
        if alt_dizi(q.last(), p.last()) && gomulu(q1, p1) {
            if q1.len() == 0 {
                assert(birlestir(q, ayirici) == q.last());
                if p1.len() > 0 {
                    assert(birlestir(p, ayirici) == bp1 + ayirici + p.last());
                    lemma_alt_dizi_uzat(q.last(), p.last(), bp1 + ayirici);
                }
            } else {
                lemma_gomulu_uzunluk(q1, p1);
                lemma_gomulu_birlesim(q1, p1, ayirici);
                lemma_alt_dizi_kendisi(ayirici);
                lemma_alt_dizi_ekle(birlestir(q1, ayirici), bp1, ayirici, ayirici);
                lemma_alt_dizi_ekle(
                    birlestir(q1, ayirici) + ayirici,
                    bp1 + ayirici,
                    q.last(),
                    p.last(),
                );
                assert(birlestir(q, ayirici) == birlestir(q1, ayirici) + ayirici + q.last());
                assert(birlestir(p, ayirici) == bp1 + ayirici + p.last());
            }
        } else {
            lemma_gomulu_uzunluk(q, p1);
            lemma_gomulu_birlesim(q, p1, ayirici);
            assert(birlestir(p, ayirici) == bp1 + ayirici + p.last());
            lemma_alt_dizi_uzat(birlestir(q, ayirici), bp1, ayirici + p.last());
            assert(bp1 + (ayirici + p.last()) =~= bp1 + ayirici + p.last());
        }
    }
}

} // verus!
