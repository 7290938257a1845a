//! Ranked lists of candidates: highest score first, and among equal scores
//! the one that registered first.

use vstd::prelude::*;
use crate::address::Address;
use crate::uint::{less_than, U256};

verus! {

/// A candidate for a match.
#[derive(Clone, Copy, Debug, PartialEq, Eq, Structural)]
pub struct Candidate {
    /// The place of the account in the order of registration.
    pub place: usize,
    pub account: Address,
    /// The score that ranks the candidate.
    pub score: U256,
}

/// Whether `a` comes before `b` in a ranked list: it does with the higher
/// score, and with the same score where it registered first.
pub open spec fn precedes(a: Candidate, b: Candidate) -> bool {
    a.score@ > b.score@ || (a.score@ == b.score@ && a.place < b.place)
}

/// Whether `list` is ranked: each entry comes before all that follow it.
pub open spec fn ranked(list: Seq<Candidate>) -> bool {
    forall|a: int, b: int| 0 <= a < b < list.len() ==> precedes(list[a], list[b])
}

/// Puts `candidate`, which registered later than all of `list`, into the
/// ranked `list`: behind every entry with at least its score, and before all
/// others. Returns the place in the list where it stands.
pub(crate) fn insert_ranked(list: &mut Vec<Candidate>, candidate: Candidate) -> (p: usize)
    requires
        ranked(old(list)@),
        forall|k: int| 0 <= k < old(list)@.len() ==> old(list)@[k].place < candidate.place,
    ensures
        p <= old(list)@.len(),
        final(list)@ == old(list)@.insert(p as int, candidate),
        ranked(final(list)@),
{
    let mut p: usize = 0;
    while p < list.len() && !less_than(list[p].score, candidate.score)
        invariant
            p <= list@.len(),
            list@ == old(list)@,
            forall|k: int| 0 <= k < p ==> list@[k].score@ >= candidate.score@,
        decreases list@.len() - p,
    {
        p += 1;
    }
    proof {
        let before = list@;
        let after = before.insert(p as int, candidate);
        before.insert_ensures(p as int, candidate);
        assert forall|a: int, b: int| 0 <= a < b < after.len() implies precedes(
            after[a],
            after[b],
        ) by {
            if b < p {
                assert(after[a] == before[a] && after[b] == before[b]);
            } else if b == p {
                assert(after[a] == before[a]);
            } else if a < p {
                assert(after[a] == before[a] && after[b] == before[b - 1]);
            } else if a == p {
                assert(after[b] == before[b - 1]);
                if b - 1 > p {
                    assert(precedes(before[p as int], before[b - 1]));
                }
            } else {
                assert(after[a] == before[a - 1] && after[b] == before[b - 1]);
            }
        }
    }
    list.insert(p, candidate);
    p
}

/// A ranked list is settled by what it holds: two ranked lists with the same
/// entries are the same list.
pub proof fn lemma_ranked_lists_agree(a: Seq<Candidate>, b: Seq<Candidate>)
    requires
        ranked(a),
        ranked(b),
        forall|i: int| 0 <= i < a.len() ==> b.contains(#[trigger] a[i]),
        forall|j: int| 0 <= j < b.len() ==> a.contains(#[trigger] b[j]),
    ensures
        a == b,
    decreases a.len(),
{
    if a.len() == 0 {
        if b.len() > 0 {
            assert(a.contains(b[0]));
        }
        assert(a =~= b);
    } else {
        assert(b.contains(a[0]));
        let j0 = choose|j: int| 0 <= j < b.len() && b[j] == a[0];
        assert(a.contains(b[0]));
        let i0 = choose|i: int| 0 <= i < a.len() && a[i] == b[0];
        if j0 > 0 && i0 > 0 {
            assert(precedes(b[0], b[j0]));
            assert(precedes(a[0], a[i0]));
        }
        assert(a[0] == b[0]);
        let rest_a = a.subrange(1, a.len() as int);
        let rest_b = b.subrange(1, b.len() as int);
        assert forall|i: int| 0 <= i < rest_a.len() implies rest_b.contains(
            #[trigger] rest_a[i],
        ) by {
            assert(rest_a[i] == a[i + 1]);
            assert(precedes(a[0], a[i + 1]));
            assert(b.contains(a[i + 1]));
            let j = choose|j: int| 0 <= j < b.len() && b[j] == a[i + 1];
            assert(rest_b[j - 1] == b[j]);
        }
        assert forall|j: int| 0 <= j < rest_b.len() implies rest_a.contains(
            #[trigger] rest_b[j],
        ) by {
            assert(rest_b[j] == b[j + 1]);
            assert(precedes(b[0], b[j + 1]));
            assert(a.contains(b[j + 1]));
            let i = choose|i: int| 0 <= i < a.len() && a[i] == b[j + 1];
            assert(rest_a[i - 1] == a[i]);
        }
        assert(ranked(rest_a)) by {
            assert forall|x: int, y: int| 0 <= x < y < rest_a.len() implies precedes(
                rest_a[x],
                rest_a[y],
            ) by {
                assert(precedes(a[x + 1], a[y + 1]));
            }
        }
        assert(ranked(rest_b)) by {
            assert forall|x: int, y: int| 0 <= x < y < rest_b.len() implies precedes(
                rest_b[x],
                rest_b[y],
            ) by {
                assert(precedes(b[x + 1], b[y + 1]));
            }
        }
        lemma_ranked_lists_agree(rest_a, rest_b);
        assert(a.len() == b.len());
        assert forall|k: int| 0 <= k < a.len() implies a[k] == b[k] by {
            if k > 0 {
                assert(rest_a[k - 1] == a[k]);
                assert(rest_b[k - 1] == b[k]);
            }
        }
        assert(a =~= b);
    }
}

} // verus!
