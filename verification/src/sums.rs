//! Summation of an integer-valued function over a sequence, with the lemmas
//! the tally engine needs: sums are insensitive to the order of the sequence
//! (they depend only on its multiset), and a sum grows pointwise.

use vstd::prelude::*;

verus! {

/// The sum of `f` over every element of `s`.
pub open spec fn sum_by<A>(s: Seq<A>, f: spec_fn(A) -> int) -> int
    decreases s.len(),
{
    if s.len() == 0 {
        0
    } else {
        sum_by(s.drop_last(), f) + f(s.last())
    }
}

/// Appending an element adds its value to the sum.
pub proof fn lemma_sum_by_push<A>(s: Seq<A>, f: spec_fn(A) -> int, x: A)
    ensures
        sum_by(s.push(x), f) == sum_by(s, f) + f(x),
{
    assert(s.push(x).drop_last() =~= s);
    assert(s.push(x).last() == x);
}

/// Extending a prefix by one element adds that element's value to its sum.
pub proof fn lemma_sum_by_take_succ<A>(s: Seq<A>, f: spec_fn(A) -> int, i: int)
    requires
        0 <= i < s.len(),
    ensures
        sum_by(s.take(i + 1), f) == sum_by(s.take(i), f) + f(s[i]),
{
    assert(s.take(i + 1) =~= s.take(i).push(s[i]));
    lemma_sum_by_push(s.take(i), f, s[i]);
}

/// A sum of non-negative values is non-negative.
pub proof fn lemma_sum_by_nonneg<A>(s: Seq<A>, f: spec_fn(A) -> int)
    requires
        forall|i: int| 0 <= i < s.len() ==> #[trigger] f(s[i]) >= 0,
    ensures
        sum_by(s, f) >= 0,
    decreases s.len(),
{
    if s.len() > 0 {
        lemma_sum_by_nonneg(s.drop_last(), f);
    }
}

/// A prefix of a sequence of non-negative values sums to no more than the
/// whole sequence.
pub proof fn lemma_sum_by_take_le<A>(s: Seq<A>, f: spec_fn(A) -> int, i: int)
    requires
        0 <= i <= s.len(),
        forall|k: int| 0 <= k < s.len() ==> #[trigger] f(s[k]) >= 0,
    ensures
        sum_by(s.take(i), f) <= sum_by(s, f),
    decreases s.len() - i,
{
    if i == s.len() {
        assert(s.take(i) =~= s);
    } else {
        lemma_sum_by_take_succ(s, f, i);
        lemma_sum_by_take_le(s, f, i + 1);
    }
}

/// A pointwise smaller function sums to no more.
pub proof fn lemma_sum_by_le<A>(s: Seq<A>, f: spec_fn(A) -> int, g: spec_fn(A) -> int)
    requires
        forall|i: int| 0 <= i < s.len() ==> #[trigger] f(s[i]) <= #[trigger] g(s[i]),
    ensures
        sum_by(s, f) <= sum_by(s, g),
    decreases s.len(),
{
    if s.len() > 0 {
        lemma_sum_by_le(s.drop_last(), f, g);
    }
}

/// A function that is zero on every element sums to zero.
pub proof fn lemma_sum_by_zero<A>(s: Seq<A>, f: spec_fn(A) -> int)
    requires
        forall|i: int| 0 <= i < s.len() ==> #[trigger] f(s[i]) == 0,
    ensures
        sum_by(s, f) == 0,
    decreases s.len(),
{
    if s.len() > 0 {
        lemma_sum_by_zero(s.drop_last(), f);
    }
}

/// A pointwise sum of two functions sums to the sum of their sums.
pub proof fn lemma_sum_by_add<A>(
    s: Seq<A>,
    h: spec_fn(A) -> int,
    f: spec_fn(A) -> int,
    g: spec_fn(A) -> int,
)
    requires
        forall|i: int| 0 <= i < s.len() ==> #[trigger] h(s[i]) == f(s[i]) + g(s[i]),
    ensures
        sum_by(s, h) == sum_by(s, f) + sum_by(s, g),
    decreases s.len(),
{
    if s.len() > 0 {
        lemma_sum_by_add(s.drop_last(), h, f, g);
    }
}

/// Removing an element subtracts its value from the sum.
pub proof fn lemma_sum_by_remove<A>(s: Seq<A>, f: spec_fn(A) -> int, j: int)
    requires
        0 <= j < s.len(),
    ensures
        sum_by(s.remove(j), f) == sum_by(s, f) - f(s[j]),
    decreases s.len(),
{
    if j == s.len() - 1 {
        assert(s.remove(j) =~= s.drop_last());
    } else {
        assert(s.remove(j).drop_last() =~= s.drop_last().remove(j));
        assert(s.remove(j).last() == s.last());
        lemma_sum_by_remove(s.drop_last(), f, j);
    }
}

/// Sequences with the same multiset of elements have the same sum: the order
/// in which the elements stand never changes a sum over them.
pub proof fn lemma_sum_by_multiset<A>(s: Seq<A>, t: Seq<A>, f: spec_fn(A) -> int)
    requires
        s.to_multiset() == t.to_multiset(),
    ensures
        sum_by(s, f) == sum_by(t, f),
    decreases s.len(),
{
    s.to_multiset_ensures();
    t.to_multiset_ensures();
    if s.len() == 0 {
        assert(t.to_multiset().len() == 0);
    } else {
        let x = s.last();
        let i = s.len() - 1;
        assert(s.contains(x));
        assert(t.to_multiset().count(x) > 0);
        assert(t.contains(x));
        let j = choose|j: int| 0 <= j < t.len() && t[j] == x;
        assert(s.remove(i).to_multiset() =~= s.to_multiset().remove(x));
        assert(t.remove(j).to_multiset() =~= t.to_multiset().remove(x));
        lemma_sum_by_multiset(s.remove(i), t.remove(j), f);
        lemma_sum_by_remove(s, f, i);
        lemma_sum_by_remove(t, f, j);
    }
}

} // verus!
