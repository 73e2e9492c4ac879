//! Ordering of options and the stable sort that lists them in order.
use vstd::prelude::*;

use std::cmp::Ordering;

verus! {

/// A type whose values are put in order by a total preorder: every two values
/// are related one way or the other, and the relation is transitive.
pub trait Ranked: Sized {
    /// `self` comes before `other` or ranks the same.
    spec fn rank_le(self, other: Self) -> bool;

    proof fn lemma_rank_total(a: Self, b: Self)
        ensures
            a.rank_le(b) || b.rank_le(a),
    ;

    proof fn lemma_rank_transitive(a: Self, b: Self, c: Self)
        requires
            a.rank_le(b),
            b.rank_le(c),
        ensures
            a.rank_le(c),
    ;

    /// Whether `self` comes before `other` or ranks the same.
    fn ranks_le(&self, other: &Self) -> (r: bool)
        ensures
            r == self.rank_le(*other),
    ;
}

/// `s` with `x` put after the last element that ranks before or with it.
pub open spec fn insert_ranked<T: Ranked>(s: Seq<T>, x: T) -> Seq<T>
    decreases s.len(),
{
    if s.len() == 0 || s.last().rank_le(x) {
        s.push(x)
    } else {
        insert_ranked(s.drop_last(), x).push(s.last())
    }
}

/// The stable sort of `s`: in rank order, values of the same rank in the order
/// they had in `s`.
pub open spec fn sorted_ranked<T: Ranked>(s: Seq<T>) -> Seq<T>
    decreases s.len(),
{
    if s.len() == 0 {
        s
    } else {
        insert_ranked(sorted_ranked(s.drop_last()), s.last())
    }
}

/// Each element of `s` ranks before or with every later one.
pub open spec fn is_ranked<T: Ranked>(s: Seq<T>) -> bool {
    forall|i: int, j: int| 0 <= i < j < s.len() ==> (#[trigger] s[i]).rank_le(#[trigger] s[j])
}

proof fn lemma_insert_ranked<T: Ranked>(s: Seq<T>, x: T)
    requires
        is_ranked(s),
    ensures
        is_ranked(insert_ranked(s, x)),
        insert_ranked(s, x).to_multiset() =~= s.to_multiset().insert(x),
        insert_ranked(s, x).len() == s.len() + 1,
    decreases s.len(),
{
    broadcast use vstd::seq_lib::group_to_multiset_ensures;

    if s.len() == 0 || s.last().rank_le(x) {
        let r = s.push(x);
        assert forall|i: int, j: int| 0 <= i < j < r.len() implies (#[trigger] r[i]).rank_le(
            #[trigger] r[j],
        ) by {
            if j == s.len() {
                if i < s.len() - 1 {
                    T::lemma_rank_transitive(s[i], s.last(), x);
                }
            }
        }
    } else {
        let p = s.drop_last();
        let l = s.last();
        assert forall|i: int, j: int| 0 <= i < j < p.len() implies (#[trigger] p[i]).rank_le(
            #[trigger] p[j],
        ) by {
            assert(p[i] == s[i] && p[j] == s[j]);
        }
        lemma_insert_ranked(p, x);
        let q = insert_ranked(p, x);
        let r = q.push(l);
        T::lemma_rank_total(l, x);
        assert forall|k: int| 0 <= k < q.len() implies (#[trigger] q[k]).rank_le(l) by {
            lemma_insert_ranked_elements(p, x, k);
            if q[k] != x {
                let m = choose|m: int| 0 <= m < p.len() && p[m] == q[k];
                assert(s[m].rank_le(s[s.len() - 1]));
            }
        }
        assert forall|i: int, j: int| 0 <= i < j < r.len() implies (#[trigger] r[i]).rank_le(
            #[trigger] r[j],
        ) by {
            if j < q.len() {
                assert(r[i] == q[i] && r[j] == q[j]);
            } else {
                assert(r[i] == q[i]);
            }
        }
        assert(p.push(l) =~= s);
    }
}

/// Every element of `insert_ranked(s, x)` is `x` or an element of `s`.
proof fn lemma_insert_ranked_elements<T: Ranked>(s: Seq<T>, x: T, k: int)
    requires
        0 <= k < insert_ranked(s, x).len(),
    ensures
        insert_ranked(s, x).len() == s.len() + 1,
        insert_ranked(s, x)[k] == x || exists|m: int| 0 <= m < s.len() && s[m] == insert_ranked(s, x)[k],
    decreases s.len(),
{
    if s.len() == 0 || s.last().rank_le(x) {
        if k < s.len() {
            assert(s[k] == s.push(x)[k]);
        }
    } else {
        let p = s.drop_last();
        lemma_insert_ranked_len(p, x);
        if k < s.len() {
            lemma_insert_ranked_elements(p, x, k);
            if insert_ranked(s, x)[k] != x {
                let m = choose|m: int| 0 <= m < p.len() && p[m] == insert_ranked(p, x)[k];
                assert(s[m] == p[m]);
            }
        } else {
            assert(s[s.len() - 1] == insert_ranked(s, x)[k]);
        }
    }
}

proof fn lemma_insert_ranked_len<T: Ranked>(s: Seq<T>, x: T)
    ensures
        insert_ranked(s, x).len() == s.len() + 1,
    decreases s.len(),
{
    if !(s.len() == 0 || s.last().rank_le(x)) {
        lemma_insert_ranked_len(s.drop_last(), x);
    }
}

/// The stable sort puts `s` in rank order and keeps its elements.
pub proof fn lemma_sorted_ranked<T: Ranked>(s: Seq<T>)
    ensures
        is_ranked(sorted_ranked(s)),
        sorted_ranked(s).to_multiset() =~= s.to_multiset(),
        sorted_ranked(s).len() == s.len(),
    decreases s.len(),
{
    broadcast use vstd::seq_lib::group_to_multiset_ensures;

    if s.len() > 0 {
        lemma_sorted_ranked(s.drop_last());
        lemma_insert_ranked(sorted_ranked(s.drop_last()), s.last());
        assert(s.drop_last().push(s.last()) =~= s);
    }
}

/// `insert_ranked` of a value into `p`, followed by `post`, once the value has
/// moved left past the last element of `p` that ranks after it.
proof fn lemma_insert_step<T: Ranked>(p: Seq<T>, x: T, post: Seq<T>)
    requires
        p.len() > 0,
        !p.last().rank_le(x),
    ensures
        insert_ranked(p, x) + post =~= insert_ranked(p.drop_last(), x) + (seq![p.last()] + post),
{
}

/// Calls `<[T]>::swap`, which exchanges the elements at `a` and `b`.
#[verifier::external_body]
fn slice_swap<T>(v: &mut [T], a: usize, b: usize)
    requires
        a < old(v)@.len(),
        b < old(v)@.len(),
    ensures
        final(v)@ == old(v)@.update(a as int, old(v)@[b as int]).update(b as int, old(v)@[a as int]),
{
    v.swap(a, b);
}

/// Sorts `v` stably into rank order.
pub fn sort_ranked<T: Ranked>(v: &mut [T])
    ensures
        final(v)@ == sorted_ranked(old(v)@),
{
    let n = v.len();
    let ghost orig = v@;
    let mut i: usize = 0;
    while i < n
        invariant
            n == v@.len(),
            orig == old(v)@,
            orig.len() == n,
            i <= n,
            v@.take(i as int) == sorted_ranked(orig.take(i as int)),
            v@.skip(i as int) == orig.skip(i as int),
        decreases n - i,
    {
        let ghost sorted_prefix = v@.take(i as int);
        let ghost x = orig[i as int];
        assert forall|k: int| i <= k < n implies v@[k] == orig[k] by {
            assert(v@.skip(i as int)[k - i] == orig.skip(i as int)[k - i]);
        }
        assert(v@[i as int] == x);
        assert(v@.skip(i + 1) =~= orig.skip(i + 1));
        assert(v@.take(i as int) + v@.subrange(i + 1, i + 1) =~= sorted_prefix);
        let mut j: usize = i;
        while j > 0 && !v[j - 1].ranks_le(&v[j])
            invariant
                n == v@.len(),
                orig.len() == n,
                i < n,
                j <= i,
                v@[j as int] == x,
                v@.skip(i + 1) == orig.skip(i + 1),
                v@.take(j as int) + v@.subrange(j + 1, i + 1) == sorted_prefix,
                insert_ranked(sorted_prefix, x) == insert_ranked(v@.take(j as int), x) + v@.subrange(
                    j + 1,
                    i + 1,
                ),
            decreases j,
        {
            let ghost before = v@;
            proof {
                lemma_insert_step(before.take(j as int), x, before.subrange(j + 1, i + 1));
                assert(before.take(j as int).drop_last() =~= before.take(j - 1));
            }
            slice_swap(v, j - 1, j);
            proof {
                assert(v@.take(j - 1) =~= before.take(j - 1));
                assert(v@.subrange(j as int, i + 1) =~= seq![before[j - 1]] + before.subrange(
                    j + 1,
                    i + 1,
                ));
                assert(v@.skip(i + 1) =~= before.skip(i + 1));
                assert(v@.take(j - 1) + v@.subrange(j as int, i + 1) =~= before.take(j as int)
                    + before.subrange(j + 1, i + 1));
            }
            j = j - 1;
        }
        proof {
            let pre = v@.take(j as int);
            let post = v@.subrange(j + 1, i + 1);
            assert(insert_ranked(pre, x) =~= pre.push(x)) by {
                if j > 0 {
                    assert(pre.last() == v@[j - 1]);
                }
            }
            assert(v@.take(i + 1) =~= pre.push(x) + post);
            assert(orig.take(i + 1).drop_last() =~= orig.take(i as int));
            assert(orig.take(i + 1).last() == x);
            assert(v@.skip(i + 1) =~= orig.skip(i + 1));
        }
        i = i + 1;
    }
    assert(v@ =~= v@.take(n as int));
    assert(orig =~= orig.take(n as int));
}

/// The result of a three-way comparison, from whether `a <= b` and whether
/// `b <= a`.
pub open spec fn ordering_of(a_le_b: bool, b_le_a: bool) -> Ordering {
    if a_le_b && b_le_a {
        Ordering::Equal
    } else if a_le_b {
        Ordering::Less
    } else {
        Ordering::Greater
    }
}

/// The result of a three-way comparison, from whether `a <= b` and whether
/// `b <= a`.
pub fn ordering_from(a_le_b: bool, b_le_a: bool) -> (r: Ordering)
    ensures
        r == ordering_of(a_le_b, b_le_a),
{
    if a_le_b && b_le_a {
        Ordering::Equal
    } else if a_le_b {
        Ordering::Less
    } else {
        Ordering::Greater
    }
}

/// A three-way comparison built from a total preorder is antisymmetric: `a`
/// comes before `b` exactly when `b` comes after `a`, and `a` ties with `b`
/// exactly when `b` ties with `a`.
pub proof fn law_ordering_antisymmetric<T: Ranked>(a: T, b: T)
    ensures
        (ordering_of(a.rank_le(b), b.rank_le(a)) == Ordering::Less) == (ordering_of(
            b.rank_le(a),
            a.rank_le(b),
        ) == Ordering::Greater),
        (ordering_of(a.rank_le(b), b.rank_le(a)) == Ordering::Equal) == (ordering_of(
            b.rank_le(a),
            a.rank_le(b),
        ) == Ordering::Equal),
{
    T::lemma_rank_total(a, b);
}

/// A three-way comparison built from a total preorder is transitive: if `a`
/// comes no later than `b` and `b` no later than `c`, then `a` comes no later
/// than `c`.
pub proof fn law_ordering_transitive<T: Ranked>(a: T, b: T, c: T)
    requires
        ordering_of(a.rank_le(b), b.rank_le(a)) != Ordering::Greater,
        ordering_of(b.rank_le(c), c.rank_le(b)) != Ordering::Greater,
    ensures
        ordering_of(a.rank_le(c), c.rank_le(a)) != Ordering::Greater,
{
    T::lemma_rank_transitive(a, b, c);
}

/// Sorting what is already in rank order leaves it as it is, so sorting only
/// what is out of order gives the same result as sorting always.
pub proof fn law_sorting_sorted_is_identity<T: Ranked>(s: Seq<T>)
    requires
        is_ranked(s),
    ensures
        sorted_ranked(s) == s,
    decreases s.len(),
{
    if s.len() > 0 {
        let p = s.drop_last();
        assert(is_ranked(p)) by {
            assert forall|i: int, j: int| 0 <= i < j < p.len() implies (#[trigger] p[i]).rank_le(
                #[trigger] p[j],
            ) by {
                assert(p[i] == s[i] && p[j] == s[j]);
            }
        }
        law_sorting_sorted_is_identity(p);
        if p.len() > 0 {
            assert(s[p.len() - 1].rank_le(s[s.len() - 1]));
        }
        assert(p.push(s.last()) =~= s);
    }
}

/// Every element of the sorted sequence is an element of the sequence sorted.
pub proof fn law_sorted_elements_are_elements<T: Ranked>(s: Seq<T>)
    ensures
        forall|k: int| 0 <= k < sorted_ranked(s).len() ==> s.contains(#[trigger] sorted_ranked(s)[k]),
{
    broadcast use vstd::seq_lib::group_to_multiset_ensures;

    lemma_sorted_ranked(s);
    assert forall|k: int| 0 <= k < sorted_ranked(s).len() implies s.contains(#[trigger] sorted_ranked(s)[k]) by {
        let t = sorted_ranked(s);
        assert(t.contains(t[k]));
        assert(t.to_multiset().count(t[k]) > 0);
    }
}

} // verus!
