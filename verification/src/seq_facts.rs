//! Facts about filtered sequences that the proofs of this crate share.

use vstd::prelude::*;

verus! {

/// The filter of a prefix grows by the next element or stays as it is.
pub proof fn filter_take_next<A>(s: Seq<A>, i: int, keep: spec_fn(A) -> bool)
    requires
        0 <= i < s.len(),
    ensures
        s.take(i + 1).filter(keep) == if keep(s[i]) {
            s.take(i).filter(keep).push(s[i])
        } else {
            s.take(i).filter(keep)
        },
{
    assert(s.take(i + 1) =~= s.take(i).push(s[i]));
    s.take(i).lemma_filter_push(s[i], keep);
}

/// Two predicates that agree on every element of a sequence filter it alike.
pub proof fn filter_agree<A>(s: Seq<A>, p: spec_fn(A) -> bool, q: spec_fn(A) -> bool)
    requires
        forall|i: int| 0 <= i < s.len() ==> p(#[trigger] s[i]) == q(s[i]),
    ensures
        s.filter(p) == s.filter(q),
    decreases s.len(),
{
    reveal(Seq::filter);
    if s.len() > 0 {
        let rest = s.drop_last();
        assert forall|i: int| 0 <= i < rest.len() implies p(#[trigger] rest[i]) == q(rest[i]) by {
            assert(rest[i] == s[i]);
        }
        filter_agree(rest, p, q);
        assert(p(s[s.len() - 1]) == q(s[s.len() - 1]));
    }
}

/// Filtering twice is filtering once by both predicates.
pub proof fn filter_twice<A>(s: Seq<A>, p: spec_fn(A) -> bool, q: spec_fn(A) -> bool)
    ensures
        s.filter(p).filter(q) == s.filter(|x: A| p(x) && q(x)),
    decreases s.len(),
{
    let both = |x: A| p(x) && q(x);
    reveal(Seq::filter);
    if s.len() > 0 {
        let rest = s.drop_last();
        let x = s.last();
        filter_twice(rest, p, q);
        assert(s =~= rest.push(x));
        rest.lemma_filter_push(x, p);
        rest.lemma_filter_push(x, both);
        if p(x) {
            rest.filter(p).lemma_filter_push(x, q);
        }
    }
}

/// Every element of a filtered sequence passes the predicate and stood in
/// the sequence before.
pub proof fn filter_members<A>(s: Seq<A>, keep: spec_fn(A) -> bool)
    ensures
        forall|x: A| #[trigger]
            s.filter(keep).contains(x) <==> (s.contains(x) && keep(x)),
    decreases s.len(),
{
    reveal(Seq::filter);
    if s.len() > 0 {
        let rest = s.drop_last();
        let last = s.last();
        filter_members(rest, keep);
        assert(s =~= rest.push(last));
        rest.lemma_filter_push(last, keep);
        assert forall|x: A| #[trigger]
            s.filter(keep).contains(x) <==> (s.contains(x) && keep(x)) by {
            if s.filter(keep).contains(x) {
                let j = choose|j: int| 0 <= j < s.filter(keep).len() && s.filter(keep)[j] == x;
                if keep(last) && j == rest.filter(keep).len() {
                    assert(s[s.len() - 1] == x);
                } else {
                    assert(rest.filter(keep)[j] == x);
                    assert(rest.filter(keep).contains(x));
                    let k = choose|k: int| 0 <= k < rest.len() && rest[k] == x;
                    assert(s[k] == x);
                }
            }
            if s.contains(x) && keep(x) {
                let k = choose|k: int| 0 <= k < s.len() && s[k] == x;
                if k == s.len() - 1 {
                    assert(s.filter(keep)[rest.filter(keep).len() as int] == x);
                } else {
                    assert(rest[k] == x);
                    assert(rest.filter(keep).contains(x));
                    let j = choose|j: int| 0 <= j < rest.filter(keep).len() && rest.filter(keep)[j] == x;
                    assert(s.filter(keep)[j] == x);
                }
            }
        }
    } else {
        assert(s.filter(keep) =~= Seq::<A>::empty());
    }
}

/// A filter that every element passes changes nothing.
pub proof fn all_pass<A>(s: Seq<A>, keep: spec_fn(A) -> bool)
    requires
        forall|i: int| 0 <= i < s.len() ==> keep(#[trigger] s[i]),
    ensures
        s.filter(keep) == s,
    decreases s.len(),
{
    reveal(Seq::filter);
    if s.len() > 0 {
        let rest = s.drop_last();
        assert forall|i: int| 0 <= i < rest.len() implies keep(#[trigger] rest[i]) by {
            assert(rest[i] == s[i]);
        }
        all_pass(rest, keep);
        assert(keep(s[s.len() - 1]));
        assert(rest.push(s.last()) =~= s);
    }
}

/// A filter that no element passes leaves nothing.
pub proof fn none_pass<A>(s: Seq<A>, keep: spec_fn(A) -> bool)
    requires
        forall|i: int| 0 <= i < s.len() ==> !keep(#[trigger] s[i]),
    ensures
        s.filter(keep) == Seq::<A>::empty(),
    decreases s.len(),
{
    reveal(Seq::filter);
    if s.len() > 0 {
        let rest = s.drop_last();
        assert forall|i: int| 0 <= i < rest.len() implies !keep(#[trigger] rest[i]) by {
            assert(rest[i] == s[i]);
        }
        none_pass(rest, keep);
        assert(!keep(s[s.len() - 1]));
    }
}

} // verus!
