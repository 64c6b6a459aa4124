//! Counting the members of a finite set by walking a list of them.

use vstd::prelude::*;

verus! {

/// The members of a list without duplicates that satisfy a predicate are
/// again a list without duplicates, and are as many as the members of the
/// list's set that satisfy it.
pub proof fn lemma_filter_counts_set<A>(s: Seq<A>, p: spec_fn(A) -> bool)
    requires
        s.no_duplicates(),
    ensures
        s.filter(p).no_duplicates(),
        s.filter(p).to_set() == s.to_set().filter(p),
        s.filter(p).len() == s.to_set().filter(p).len(),
    decreases s.len(),
{
    broadcast use Seq::lemma_filter_contains_rev;

    reveal(Seq::filter);
    let kept = s.filter(p);
    if s.len() > 0 {
        let front = s.drop_last();
        lemma_filter_counts_set(front, p);
        let kept_front = front.filter(p);
        assert forall|i: int, j: int|
            0 <= i < kept.len() && 0 <= j < kept.len() && i != j implies kept[i] != kept[j] by {
            if p(s.last()) {
                if i == kept.len() - 1 || j == kept.len() - 1 {
                    let other = if i == kept.len() - 1 {
                        j
                    } else {
                        i
                    };
                    assert(kept_front.contains(kept_front[other]));
                    assert(front.contains(kept_front[other]));
                    let at = choose|at: int| 0 <= at < front.len() && front[at] == kept_front[other];
                    assert(s[at] == kept_front[other]);
                }
            }
        }
    }
    assert forall|a: A| kept.to_set().contains(a) <==> s.to_set().filter(p).contains(a) by {
        if kept.contains(a) {
            assert(s.contains(a) && p(a));
        }
        if s.contains(a) && p(a) {
            let at = choose|at: int| 0 <= at < s.len() && s[at] == a;
            s.lemma_filter_contains(p, at);
        }
    }
    assert(kept.to_set() =~= s.to_set().filter(p));
    kept.unique_seq_to_set();
}

/// The first `upto + 1` members of a list are the first `upto` and the
/// member that follows them.
pub proof fn lemma_take_one_more<A>(s: Seq<A>, upto: int)
    requires
        0 <= upto < s.len(),
    ensures
        s.take(upto + 1) == s.take(upto).push(s[upto]),
        forall|a: A|
            s.take(upto + 1).contains(a) <==> (s.take(upto).contains(a) || a == s[upto]),
        s.take(upto + 1).to_set() == s.take(upto).to_set().insert(s[upto]),
{
    let prev = s.take(upto);
    let next = s.take(upto + 1);
    assert(next =~= prev.push(s[upto]));
    assert forall|a: A| next.contains(a) <==> (prev.contains(a) || a == s[upto]) by {
        if next.contains(a) {
            let at = choose|at: int| 0 <= at < next.len() && next[at] == a;
            if at < upto {
                assert(prev[at] == a);
            }
        }
        if prev.contains(a) {
            let at = choose|at: int| 0 <= at < prev.len() && prev[at] == a;
            assert(next[at] == a);
        }
        if a == s[upto] {
            assert(next[upto] == a);
        }
    }
    assert(next.to_set() =~= prev.to_set().insert(s[upto]));
}

/// How many of the first `upto` members of a list satisfy a predicate.
pub open spec fn count_in<A>(s: Seq<A>, upto: int, p: spec_fn(A) -> bool) -> nat {
    s.take(upto).filter(p).len()
}

/// Counting one member further adds one where that member satisfies the
/// predicate; the count never exceeds the number of members looked at.
pub proof fn lemma_count_in_step<A>(s: Seq<A>, upto: int, p: spec_fn(A) -> bool)
    requires
        0 <= upto < s.len(),
    ensures
        count_in(s, upto + 1, p) == count_in(s, upto, p) + if p(s[upto]) {
            1nat
        } else {
            0nat
        },
        count_in(s, upto, p) <= upto,
{
    assert(s.take(upto + 1) =~= s.take(upto).push(s[upto]));
    s.take(upto).lemma_filter_len_push(p, s[upto]);
    s.take(upto).lemma_filter_len(p);
}

/// Nothing is counted before the first member, and counting all members of
/// a list without duplicates counts the members of its set.
pub proof fn lemma_count_in_ends<A>(s: Seq<A>, p: spec_fn(A) -> bool)
    requires
        s.no_duplicates(),
    ensures
        count_in(s, 0, p) == 0,
        count_in(s, s.len() as int, p) == s.to_set().filter(p).len(),
        count_in(s, s.len() as int, p) <= s.len(),
{
    reveal(Seq::filter);
    assert(s.take(0) =~= Seq::<A>::empty());
    assert(s.take(s.len() as int) =~= s);
    lemma_filter_counts_set(s, p);
    s.lemma_filter_len(p);
}

} // verus!
