//! Scores: how well two lists of interests go together, how near two places
//! are, and how both blend with a boost into the score that ranks a candidate.

use vstd::prelude::*;
use crate::table::Table;
use crate::uint::{checked_add, checked_div, checked_mul, less_than, lemma_view_bound, modulus, saturating_sub, U256};

verus! {

/// The highest score there is.
pub const MAX_SCORE: u64 = 100;

/// The distance beyond which two places count as too far apart.
pub const MAX_DISTANCE: u64 = 1000;

/// How often each interest was verified, as numbers.
pub open spec fn counts(popularity: Map<U256, U256>) -> Map<U256, nat> {
    popularity.map_values(|c: U256| c@)
}

/// How often `interest` was verified: zero for one that never was.
pub open spec fn count_of(popularity: Map<U256, nat>, interest: U256) -> nat {
    if popularity.contains_key(interest) {
        popularity[interest]
    } else {
        0
    }
}

/// What one shared interest adds to a score: the rarer the interest, the
/// more. An interest verified `n` times weighs `100 / min(n, 100)`, rounded
/// down, and one never verified weighs 100.
pub open spec fn interest_weight(verified: nat) -> nat {
    if verified == 0 {
        100
    } else if verified >= 100 {
        1
    } else {
        100nat / verified
    }
}

/// How many entries of `list` are `interest`.
pub open spec fn occurrences(interest: U256, list: Seq<U256>) -> nat
    decreases list.len(),
{
    if list.len() == 0 {
        0
    } else {
        occurrences(interest, list.drop_last()) + if list.last() == interest {
            1nat
        } else {
            0nat
        }
    }
}

/// The sum of the weights of all pairs of equal entries, one entry from each
/// list. An interest that stands twice in a list is counted twice.
pub open spec fn overlap(first: Seq<U256>, second: Seq<U256>, popularity: Map<U256, nat>) -> nat
    decreases first.len(),
{
    if first.len() == 0 {
        0
    } else {
        overlap(first.drop_last(), second, popularity) + occurrences(first.last(), second)
            * interest_weight(count_of(popularity, first.last()))
    }
}

/// The compatibility of two lists of interests: the overlap, but no more
/// than 100.
pub open spec fn compatibility(first: Seq<U256>, second: Seq<U256>, popularity: Map<U256, nat>)
    -> nat {
    if overlap(first, second, popularity) > 100 {
        100
    } else {
        overlap(first, second, popularity)
    }
}

/// `n`, but no more than 100.
pub open spec fn capped(n: nat) -> nat {
    if n > 100 {
        100
    } else {
        n
    }
}

/// The weight of `interest` under `popularity`.
fn weight_of(popularity: &Table<U256, U256>, interest: U256) -> (r: U256)
    ensures
        r@ == interest_weight(count_of(counts(popularity@), interest)),
        1 <= r@ <= 100,
{
    let hundred = U256::from_u64(MAX_SCORE);
    let verified = match popularity.get(&interest) {
        Some(c) => c,
        None => U256::zero(),
    };
    if verified.is_zero() {
        return hundred;
    }
    let divisor = if less_than(hundred, verified) {
        hundred
    } else {
        verified
    };
    proof {
        let d = divisor@;
        assert(1 <= d <= 100);
        assert(1 <= 100nat / d <= 100) by (nonlinear_arith)
            requires
                1 <= d <= 100,
        ;
        assert(d == 100 ==> 100nat / d == 1) by (nonlinear_arith);
    }
    match checked_div(hundred, divisor) {
        Some(w) => w,
        None => hundred,
    }
}

/// `score + weight`, but no more than 100.
fn add_capped(score: U256, weight: U256) -> (r: U256)
    requires
        score@ <= 100,
        weight@ <= 100,
    ensures
        r@ == capped(score@ + weight@),
{
    let hundred = U256::from_u64(MAX_SCORE);
    match checked_add(score, weight) {
        Some(sum) => {
            if less_than(hundred, sum) {
                hundred
            } else {
                sum
            }
        },
        None => hundred,
    }
}

/// The compatibility of two lists of interests under `popularity`: every pair
/// of equal entries adds the weight of its interest, and the sum is cut off
/// at 100. Lists without a common interest score zero.
pub fn compatibility_score(first: &Vec<U256>, second: &Vec<U256>, popularity: &Table<U256, U256>)
    -> (r: U256)
    ensures
        r@ == compatibility(first@, second@, counts(popularity@)),
{
    let ghost pop = counts(popularity@);
    let mut score = U256::zero();
    let mut i: usize = 0;
    while i < first.len()
        invariant
            i <= first@.len(),
            pop == counts(popularity@),
            score@ == capped(overlap(first@.take(i as int), second@, pop)),
        decreases first@.len() - i,
    {
        let interest = first[i];
        let weight = weight_of(popularity, interest);
        let ghost before = overlap(first@.take(i as int), second@, pop);
        let mut j: usize = 0;
        proof {
            assert(occurrences(interest, second@.take(0)) == 0);
            assert(0 * weight@ == 0) by (nonlinear_arith);
        }
        while j < second.len()
            invariant
                j <= second@.len(),
                1 <= weight@ <= 100,
                score@ == capped(before + occurrences(interest, second@.take(j as int)) * weight@),
            decreases second@.len() - j,
        {
            proof {
                let seen = occurrences(interest, second@.take(j as int));
                assert(second@.take(j + 1).drop_last() == second@.take(j as int));
                assert((seen + 1) * weight@ == seen * weight@ + weight@) by (nonlinear_arith);
            }
            if second[j] == interest {
                score = add_capped(score, weight);
            }
            j += 1;
        }
        proof {
            assert(second@.take(second@.len() as int) == second@);
            assert(first@.take(i + 1).drop_last() == first@.take(i as int));
        }
        i += 1;
    }
    proof {
        assert(first@.take(first@.len() as int) == first@);
    }
    score
}

/// An interest that is not in a list occurs in it zero times.
proof fn lemma_occurrences_absent(interest: U256, list: Seq<U256>)
    requires
        forall|j: int| 0 <= j < list.len() ==> list[j] != interest,
    ensures
        occurrences(interest, list) == 0,
    decreases list.len(),
{
    if list.len() > 0 {
        lemma_occurrences_absent(interest, list.drop_last());
    }
}

/// One more entry `x` at the end of the second list adds to the overlap the
/// weight of `x` for each time that `x` stands in the first list.
proof fn lemma_overlap_push(
    first: Seq<U256>,
    second: Seq<U256>,
    x: U256,
    popularity: Map<U256, nat>,
)
    ensures
        overlap(first, second.push(x), popularity) == overlap(first, second, popularity)
            + occurrences(x, first) * interest_weight(count_of(popularity, x)),
    decreases first.len(),
{
    let wx = interest_weight(count_of(popularity, x));
    if first.len() == 0 {
        assert(0 * wx == 0) by (nonlinear_arith);
    } else {
        let y = first.last();
        let wy = interest_weight(count_of(popularity, y));
        let rest = first.drop_last();
        lemma_overlap_push(rest, second, x, popularity);
        let longer = second.push(x);
        assert(longer.drop_last() == second);
        assert(longer.last() == x);
        let in_second = occurrences(y, second);
        let in_rest = occurrences(x, rest);
        if x == y {
            assert(occurrences(y, longer) == in_second + 1);
            assert(occurrences(x, first) == in_rest + 1);
            assert((in_second + 1) * wy == in_second * wy + wy) by (nonlinear_arith);
            assert((in_rest + 1) * wx == in_rest * wx + wx) by (nonlinear_arith);
        } else {
            assert(occurrences(y, longer) == in_second);
            assert(occurrences(x, first) == in_rest);
        }
    }
}

/// The overlap does not depend on which list comes first.
pub proof fn lemma_overlap_symmetric(
    first: Seq<U256>,
    second: Seq<U256>,
    popularity: Map<U256, nat>,
)
    ensures
        overlap(first, second, popularity) == overlap(second, first, popularity),
    decreases first.len(),
{
    if first.len() == 0 {
        lemma_overlap_none(second, first, popularity);
    } else {
        lemma_overlap_symmetric(first.drop_last(), second, popularity);
        lemma_overlap_push(second, first.drop_last(), first.last(), popularity);
        assert(first.drop_last().push(first.last()) == first);
    }
}

/// Lists without a common entry have no overlap.
proof fn lemma_overlap_none(first: Seq<U256>, second: Seq<U256>, popularity: Map<U256, nat>)
    requires
        forall|i: int, j: int|
            0 <= i < first.len() && 0 <= j < second.len() ==> first[i] != second[j],
    ensures
        overlap(first, second, popularity) == 0,
    decreases first.len(),
{
    if first.len() > 0 {
        lemma_overlap_none(first.drop_last(), second, popularity);
        lemma_occurrences_absent(first.last(), second);
        assert(0 * interest_weight(count_of(popularity, first.last())) == 0) by (nonlinear_arith);
    }
}

/// Compatibility is symmetric: with the popularity held fixed, swapping the
/// two lists of interests leaves the score as it is.
pub proof fn law_compatibility_symmetric(
    first: Seq<U256>,
    second: Seq<U256>,
    popularity: Map<U256, nat>,
)
    ensures
        compatibility(first, second, popularity) == compatibility(second, first, popularity),
{
    lemma_overlap_symmetric(first, second, popularity);
}

/// A compatibility score lies between 0 and 100, and two lists without a
/// common interest score exactly 0.
pub proof fn law_compatibility_bounds(
    first: Seq<U256>,
    second: Seq<U256>,
    popularity: Map<U256, nat>,
)
    ensures
        0 <= compatibility(first, second, popularity) <= 100,
        (forall|i: int, j: int|
            0 <= i < first.len() && 0 <= j < second.len() ==> first[i] != second[j])
            ==> compatibility(first, second, popularity) == 0,
{
    if forall|i: int, j: int|
        0 <= i < first.len() && 0 <= j < second.len() ==> first[i] != second[j] {
        lemma_overlap_none(first, second, popularity);
    }
}

/// How far two numbers are apart.
pub open spec fn gap(a: nat, b: nat) -> nat {
    if a > b {
        (a - b) as nat
    } else {
        (b - a) as nat
    }
}

/// The distance between two places: the sum of the gaps of their longitudes
/// and of their latitudes.
pub open spec fn distance(longitude: nat, latitude: nat, other_longitude: nat, other_latitude: nat)
    -> nat {
    gap(longitude, other_longitude) + gap(latitude, other_latitude)
}

/// How near two places are, from 0 to 100. A coordinate of zero means that
/// the place is not known, and the score is then 0. Else the same place
/// scores 100, a distance above 1000 scores 0, and a distance `d` in between
/// scores `100 - d * 100 / 1000`, the quotient rounded down.
pub open spec fn proximity(
    longitude: nat,
    latitude: nat,
    other_longitude: nat,
    other_latitude: nat,
) -> nat {
    let d = distance(longitude, latitude, other_longitude, other_latitude);
    if longitude == 0 || latitude == 0 || other_longitude == 0 || other_latitude == 0 {
        0
    } else if d == 0 {
        100
    } else if d > 1000 {
        0
    } else {
        (100 - (d * 100) / 1000) as nat
    }
}

/// The score that ranks a candidate: 60 parts compatibility and 40 parts
/// proximity, raised by the boost: `(interest * 60 + location * 40) * (100 +
/// boost) / 10000`, the quotient rounded down. Where the product does not fit
/// in 256 bits, the score is the largest number that does.
pub open spec fn blended(interest: nat, location: nat, boost: nat) -> nat {
    let product = (interest * 60 + location * 40) * (100 + boost);
    if product < modulus() {
        product / 10000
    } else {
        (modulus() - 1) as nat
    }
}

/// How far `a` and `b` are apart.
fn gap_between(a: U256, b: U256) -> (r: U256)
    ensures
        r@ == gap(a@, b@),
{
    if less_than(b, a) {
        saturating_sub(a, b)
    } else {
        saturating_sub(b, a)
    }
}

/// How near the place of one account is to the place of another, from 0 to
/// 100.
pub fn location_score(
    longitude: U256,
    latitude: U256,
    other_longitude: U256,
    other_latitude: U256,
) -> (r: U256)
    ensures
        r@ == proximity(longitude@, latitude@, other_longitude@, other_latitude@),
        r@ <= 100,
{
    if longitude.is_zero() || latitude.is_zero() || other_longitude.is_zero()
        || other_latitude.is_zero() {
        return U256::zero();
    }
    let east = gap_between(longitude, other_longitude);
    let north = gap_between(latitude, other_latitude);
    let d = match checked_add(east, north) {
        Some(d) => d,
        None => {
            return U256::zero();
        },
    };
    if d.is_zero() {
        return U256::from_u64(MAX_SCORE);
    }
    match d.to_u64() {
        Some(near) => {
            if near > MAX_DISTANCE {
                U256::zero()
            } else {
                U256::from_u64(MAX_SCORE - near * 100 / 1000)
            }
        },
        None => U256::zero(),
    }
}

/// The score that ranks a candidate, from its compatibility score, its
/// location score and its boost level.
pub fn total_score(interest: U256, location: U256, boost: U256) -> (r: U256)
    ensures
        r@ == blended(interest@, location@, boost@),
{
    let highest = U256::max_value();
    proof {
        lemma_view_bound(interest);
        lemma_view_bound(location);
        lemma_view_bound(boost);
        lemma_product_grows(interest@ * 60, location@ * 40, 100 + boost@);
    }
    let by_interest = match checked_mul(interest, U256::from_u64(60)) {
        Some(v) => v,
        None => {
            return highest;
        },
    };
    let by_location = match checked_mul(location, U256::from_u64(40)) {
        Some(v) => v,
        None => {
            return highest;
        },
    };
    let weighted = match checked_add(by_interest, by_location) {
        Some(v) => v,
        None => {
            return highest;
        },
    };
    let multiplier = match checked_add(U256::from_u64(100), boost) {
        Some(v) => v,
        None => {
            proof {
                lemma_factor_grows(weighted@, 100 + boost@);
            }
            return if weighted.is_zero() {
                U256::zero()
            } else {
                highest
            };
        },
    };
    let product = match checked_mul(weighted, multiplier) {
        Some(v) => v,
        None => {
            return highest;
        },
    };
    match checked_div(product, U256::from_u64(10000)) {
        Some(v) => v,
        None => highest,
    }
}

/// A sum times a factor of at least one is no less than either part of it.
proof fn lemma_product_grows(a: nat, b: nat, factor: nat)
    requires
        factor >= 1,
    ensures
        (a + b) * factor >= a + b,
        (a + b) * factor >= a,
        (a + b) * factor >= b,
{
    assert((a + b) * factor >= a + b) by (nonlinear_arith)
        requires
            factor >= 1,
    ;
}

/// A number that is not zero, times a factor, is no less than the factor; and
/// zero times a factor is zero.
proof fn lemma_factor_grows(a: nat, factor: nat)
    ensures
        a >= 1 ==> a * factor >= factor,
        a == 0 ==> a * factor == 0,
{
    assert(a >= 1 ==> a * factor >= factor) by (nonlinear_arith);
    assert(a == 0 ==> a * factor == 0) by (nonlinear_arith);
}

} // verus!
