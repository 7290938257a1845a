use boost_match::address::Address;
use boost_match::boost_manager::BoostManager;
use boost_match::main_contract::{MainContract, MainContractError};
use boost_match::ranking::Candidate;
use boost_match::uint::U256;

const FEE: u64 = 10_000_000_000_000_000;
const NOW: u64 = 1_700_000_000;

fn user(n: u64) -> Address {
    Address::new(0, 0, n)
}

fn v(n: u64) -> U256 {
    U256::from_u64(n)
}

fn admin() -> Address {
    user(1)
}

/// A registry with the accounts 10, 11, 12, ... registered in this order, each with one
/// verification of the interest 7 at the place (1000 + distance, 1000).
fn crowd(distances: &[u64]) -> MainContract {
    let mut r = MainContract::new();
    assert_eq!(r.init(admin()), Ok(()));
    assert_eq!(r.set_contracts(admin(), user(100), user(101)), Ok(()));
    for (i, d) in distances.iter().enumerate() {
        let who = user(10 + i as u64);
        assert_eq!(r.register_user(who, v(FEE), NOW), Ok(()));
        assert_eq!(r.update_location(who, String::new(), v(1_000 + d), v(1_000), NOW), Ok(()));
    }
    r
}

fn verify_all(r: &mut MainContract, interest: u64, count: usize) {
    for i in 0..count {
        assert_eq!(r.verify_poap(user(10 + i as u64), v(interest), NOW, true), Ok(()));
    }
}

fn no_levels() -> Vec<Option<U256>> {
    Vec::new()
}

#[test]
fn best_of_two_candidates_is_returned() {
    // The requester shares one interest with each candidate.
    let mut r = crowd(&[0, 500, 125]);
    assert_eq!(r.verify_poap(user(10), v(1), NOW, true), Ok(()));
    assert_eq!(r.verify_poap(user(10), v(2), NOW, true), Ok(()));
    assert_eq!(r.verify_poap(user(11), v(1), NOW, true), Ok(()));
    assert_eq!(r.verify_poap(user(12), v(2), NOW, true), Ok(()));
    // Each interest was verified twice: weight 50.
    assert_eq!(r.check_compatibility(user(10), user(11)), Ok(v(50)));
    let ranking = r.rank_candidates(user(10), NOW, &no_levels()).unwrap();
    assert_eq!(
        ranking,
        vec![
            Candidate { place: 2, account: user(12), score: v(65) },
            Candidate { place: 1, account: user(11), score: v(50) },
        ]
    );
    assert_eq!(r.find_matches(user(10), 1, NOW, &no_levels()), Ok(vec![user(12)]));
}

#[test]
fn interest_verified_twice_by_a_candidate_counts_twice() {
    let mut r = crowd(&[0, 500, 125]);
    // Interest 1 is shared by the requester and the first candidate only, interest 2 by the
    // requester and the second only; each candidate has verified its interest twice.
    assert_eq!(r.verify_poap(user(10), v(1), NOW, true), Ok(()));
    assert_eq!(r.verify_poap(user(11), v(1), NOW, true), Ok(()));
    assert_eq!(r.verify_poap(user(11), v(1), NOW, true), Ok(()));
    assert_eq!(r.verify_poap(user(10), v(2), NOW, true), Ok(()));
    assert_eq!(r.verify_poap(user(12), v(2), NOW, true), Ok(()));
    assert_eq!(r.verify_poap(user(12), v(2), NOW, true), Ok(()));
    // Popularity 3 each: weight 33, two pairs each: 66.
    assert_eq!(r.check_compatibility(user(10), user(11)), Ok(v(66)));
    let ranking = r.rank_candidates(user(10), NOW, &no_levels()).unwrap();
    // (66 * 60 + 50 * 40) / 100 = 59 and (66 * 60 + 88 * 40) / 100 = 74.
    assert_eq!(
        ranking,
        vec![
            Candidate { place: 2, account: user(12), score: v(74) },
            Candidate { place: 1, account: user(11), score: v(59) },
        ]
    );
}

#[test]
fn scores_eighty_and_ninety_five_return_the_ninety_five() {
    let mut r = MainContract::new();
    assert_eq!(r.init(admin()), Ok(()));
    assert_eq!(r.register_user(user(10), v(FEE), NOW), Ok(()));
    assert_eq!(r.register_user(user(11), v(FEE), NOW), Ok(()));
    assert_eq!(r.register_user(user(12), v(FEE), NOW), Ok(()));
    assert_eq!(r.update_location(user(10), String::new(), v(1_000), v(1_000), NOW), Ok(()));
    assert_eq!(r.update_location(user(11), String::new(), v(1_500), v(1_000), NOW), Ok(()));
    assert_eq!(r.update_location(user(12), String::new(), v(1_000), v(875), NOW), Ok(()));
    assert_eq!(r.set_contracts(admin(), user(100), user(101)), Ok(()));
    // The requester verifies each interest once; each candidate verifies its own interest
    // so often that the pairs alone reach a compatibility of 100.
    assert_eq!(r.verify_poap(user(10), v(1), NOW, true), Ok(()));
    assert_eq!(r.verify_poap(user(10), v(2), NOW, true), Ok(()));
    for _ in 0..99 {
        assert_eq!(r.verify_poap(user(11), v(1), NOW, true), Ok(()));
        assert_eq!(r.verify_poap(user(12), v(2), NOW, true), Ok(()));
    }
    // Popularity 100: weight 1, and 99 pairs: 99.
    assert_eq!(r.check_compatibility(user(10), user(11)), Ok(v(99)));
    assert_eq!(r.verify_poap(user(11), v(1), NOW, true), Ok(()));
    assert_eq!(r.verify_poap(user(12), v(2), NOW, true), Ok(()));
    assert_eq!(r.check_compatibility(user(10), user(11)), Ok(v(100)));
    assert_eq!(r.check_compatibility(user(10), user(12)), Ok(v(100)));
    let ranking = r.rank_candidates(user(10), NOW, &no_levels()).unwrap();
    assert_eq!(
        ranking,
        vec![
            Candidate { place: 2, account: user(12), score: v(95) },
            Candidate { place: 1, account: user(11), score: v(80) },
        ]
    );
    assert_eq!(r.find_matches(user(10), 1, NOW, &no_levels()), Ok(vec![user(12)]));
    assert_eq!(r.find_matches(user(10), 2, NOW, &no_levels()), Ok(vec![user(12), user(11)]));
    assert_eq!(r.find_matches(user(10), 0, NOW, &no_levels()), Ok(vec![]));
}

#[test]
fn matches_are_for_registered_accounts() {
    let mut r = crowd(&[0, 10]);
    verify_all(&mut r, 7, 2);
    assert_eq!(
        r.find_matches(user(99), 5, NOW, &no_levels()),
        Err(MainContractError::NotRegistered)
    );
    assert_eq!(
        r.rank_candidates(user(99), NOW, &no_levels()),
        Err(MainContractError::NotRegistered)
    );
}

#[test]
fn requester_is_never_among_the_matches() {
    let mut r = crowd(&[0, 10, 20]);
    verify_all(&mut r, 7, 3);
    for i in 0..3 {
        let me = user(10 + i);
        let found = r.find_matches(me, 10, NOW, &no_levels()).unwrap();
        assert_eq!(found.len(), 2);
        assert!(!found.contains(&me));
    }
}

#[test]
fn alone_in_the_registry_there_are_no_matches() {
    let mut r = crowd(&[0]);
    verify_all(&mut r, 7, 1);
    assert_eq!(r.find_matches(user(10), 10, NOW, &no_levels()), Ok(vec![]));
}

#[test]
fn account_idle_for_more_than_thirty_days_is_left_out() {
    let mut r = crowd(&[0, 10, 20]);
    verify_all(&mut r, 7, 3);
    let later = NOW + 2_592_000;
    assert_eq!(r.update_location(user(10), String::new(), v(1_000), v(1_000), later), Ok(()));
    assert_eq!(r.update_location(user(12), String::new(), v(1_020), v(1_000), later + 1), Ok(()));
    assert_eq!(r.find_matches(user(10), 10, later, &no_levels()), Ok(vec![user(11), user(12)]));
    assert_eq!(r.find_matches(user(10), 10, later + 1, &no_levels()), Ok(vec![user(12)]));
    assert_eq!(
        r.find_matches(user(10), 10, later + 1 + 2_592_000, &no_levels()),
        Ok(vec![user(12)])
    );
    assert_eq!(r.find_matches(user(10), 10, later + 2 + 2_592_000, &no_levels()), Ok(vec![]));
}

#[test]
fn candidate_without_common_interest_is_left_out() {
    let mut r = crowd(&[0, 10, 20, 30]);
    assert_eq!(r.verify_poap(user(10), v(7), NOW, true), Ok(()));
    assert_eq!(r.verify_poap(user(11), v(8), NOW, true), Ok(()));
    assert_eq!(r.verify_poap(user(12), v(7), NOW, true), Ok(()));
    assert_eq!(r.find_matches(user(10), 10, NOW, &no_levels()), Ok(vec![user(12)]));
    assert_eq!(r.find_matches(user(11), 10, NOW, &no_levels()), Ok(vec![]));
    assert_eq!(r.find_matches(user(13), 10, NOW, &no_levels()), Ok(vec![]));
}

#[test]
fn equal_scores_keep_the_order_of_registration() {
    let mut r = crowd(&[0, 300, 300, 300, 300]);
    verify_all(&mut r, 7, 5);
    // Popularity 5: weight 20; proximity 70: (20 * 60 + 70 * 40) / 100 = 40.
    let ranking = r.rank_candidates(user(10), NOW, &no_levels()).unwrap();
    assert_eq!(
        ranking,
        vec![
            Candidate { place: 1, account: user(11), score: v(40) },
            Candidate { place: 2, account: user(12), score: v(40) },
            Candidate { place: 3, account: user(13), score: v(40) },
            Candidate { place: 4, account: user(14), score: v(40) },
        ]
    );
    assert_eq!(r.find_matches(user(10), 3, NOW, &no_levels()), Ok(vec![user(11), user(12), user(13)]));
    assert_eq!(
        r.find_matches(user(12), 10, NOW, &no_levels()).unwrap(),
        vec![user(11), user(13), user(14), user(10)]
    );
}

#[test]
fn matches_are_sorted_by_falling_score() {
    let mut r = crowd(&[0, 900, 100, 500, 100, 0, 1_500]);
    verify_all(&mut r, 7, 7);
    let ranking = r.rank_candidates(user(10), NOW, &no_levels()).unwrap();
    let places: Vec<usize> = ranking.iter().map(|c| c.place).collect();
    assert_eq!(places, vec![5, 2, 4, 3, 1, 6]);
    let scores: Vec<U256> = ranking.iter().map(|c| c.score).collect();
    // Popularity 7: weight 14, so 8 points of compatibility; proximity 100, 90, 90, 50, 10, 0.
    assert_eq!(scores, vec![v(48), v(44), v(44), v(28), v(12), v(8)]);
    for pair in ranking.windows(2) {
        let (a, b) = (pair[0], pair[1]);
        let (sa, sb) = (a.score.to_u64().unwrap(), b.score.to_u64().unwrap());
        assert!(sa > sb || (sa == sb && a.place < b.place));
    }
    assert_eq!(
        r.find_matches(user(10), 4, NOW, &no_levels()),
        Ok(vec![user(15), user(12), user(14), user(13)])
    );
}

#[test]
fn more_results_asked_than_candidates_returns_all() {
    let mut r = crowd(&[0, 10]);
    verify_all(&mut r, 7, 2);
    assert_eq!(r.find_matches(user(10), u32::MAX, NOW, &no_levels()), Ok(vec![user(11)]));
}

#[test]
fn unknown_place_of_either_account_leaves_the_compatibility_alone() {
    let mut r = MainContract::new();
    assert_eq!(r.init(admin()), Ok(()));
    assert_eq!(r.set_contracts(admin(), user(100), user(101)), Ok(()));
    for i in 10..13 {
        assert_eq!(r.register_user(user(i), v(FEE), NOW), Ok(()));
        assert_eq!(r.verify_poap(user(i), v(7), NOW, true), Ok(()));
    }
    assert_eq!(r.update_location(user(11), String::new(), v(5), v(5), NOW), Ok(()));
    assert_eq!(r.update_location(user(12), String::new(), v(5), v(5), NOW), Ok(()));
    // Popularity 3: 33 points; the requester 10 has no place, so nobody is near.
    assert_eq!(
        r.rank_candidates(user(10), NOW, &no_levels()).unwrap(),
        vec![
            Candidate { place: 1, account: user(11), score: v(19) },
            Candidate { place: 2, account: user(12), score: v(19) },
        ]
    );
    // 11 and 12 are at the same place: (33 * 60 + 100 * 40) / 100 = 59.
    assert_eq!(
        r.rank_candidates(user(11), NOW, &no_levels()).unwrap(),
        vec![
            Candidate { place: 2, account: user(12), score: v(59) },
            Candidate { place: 0, account: user(10), score: v(19) },
        ]
    );
}

#[test]
fn boost_lifts_a_candidate() {
    let mut r = crowd(&[0, 100, 500, 500]);
    verify_all(&mut r, 7, 4);
    // Popularity 4: weight 25; proximity 90, 50, 50.
    let plain = r.rank_candidates(user(10), NOW, &no_levels()).unwrap();
    assert_eq!(
        plain,
        vec![
            Candidate { place: 1, account: user(11), score: v(51) },
            Candidate { place: 2, account: user(12), score: v(35) },
            Candidate { place: 3, account: user(13), score: v(35) },
        ]
    );
    assert_eq!(r.boost_queries(user(10), NOW), Ok(vec![user(11), user(12), user(13)]));
    let levels = vec![None, None, Some(v(100))];
    let lifted = r.rank_candidates(user(10), NOW, &levels).unwrap();
    assert_eq!(
        lifted,
        vec![
            Candidate { place: 3, account: user(13), score: v(70) },
            Candidate { place: 1, account: user(11), score: v(51) },
            Candidate { place: 2, account: user(12), score: v(35) },
        ]
    );
    let short = vec![Some(v(100))];
    assert_eq!(
        r.find_matches(user(10), 2, NOW, &short),
        Ok(vec![user(11), user(12)])
    );
    assert_eq!(r.rank_candidates(user(10), NOW, &short).unwrap()[0].score, v(102));
}

#[test]
fn boost_counts_only_with_a_ledger_named() {
    let mut r = MainContract::new();
    assert_eq!(r.init(admin()), Ok(()));
    for (i, d) in [0u64, 100, 500].iter().enumerate() {
        let who = user(10 + i as u64);
        assert_eq!(r.register_user(who, v(FEE), NOW), Ok(()));
        assert_eq!(r.update_location(who, String::new(), v(1_000 + d), v(1_000), NOW), Ok(()));
    }
    let levels = vec![None, Some(v(10_000))];
    // Without the services named no interest can be verified, hence no candidates; name them,
    // verify, and compare with a registry that has no ledger.
    assert_eq!(r.find_matches(user(10), 5, NOW, &levels), Ok(vec![]));
    assert_eq!(r.set_contracts(admin(), user(100), user(101)), Ok(()));
    verify_all(&mut r, 7, 3);
    assert_eq!(r.find_matches(user(10), 5, NOW, &levels), Ok(vec![user(12), user(11)]));
    assert_eq!(r.find_matches(user(10), 5, NOW, &no_levels()), Ok(vec![user(11), user(12)]));
}

#[test]
fn boost_bought_in_the_ledger_ranks_until_it_ends() {
    let mut ledger = BoostManager::new();
    assert_eq!(ledger.init(admin()), Ok(()));
    assert!(ledger.update_min_boost_price(admin(), v(10)).is_ok());
    let mut r = crowd(&[0, 100, 500]);
    verify_all(&mut r, 7, 3);
    assert!(ledger.purchase_boost(user(12), v(3), v(100), NOW).is_ok());
    let levels_at = |now: u64| -> Vec<Option<U256>> {
        let asked = r.boost_queries(user(10), now).unwrap();
        asked.iter().map(|a| Some(ledger.get_boost_level(*a, now))).collect()
    };
    // Popularity 3: weight 33; proximity 90 and 50: 55 and 39 without a boost, and 39 * 2 = 79
    // with a level of 100 ((33 * 60 + 50 * 40) * 200 / 10000).
    assert_eq!(r.find_matches(user(10), 1, NOW, &levels_at(NOW)), Ok(vec![user(12)]));
    assert_eq!(
        r.rank_candidates(user(10), NOW, &levels_at(NOW)).unwrap(),
        vec![
            Candidate { place: 2, account: user(12), score: v(79) },
            Candidate { place: 1, account: user(11), score: v(55) },
        ]
    );
    let end = NOW + 3 * 86_400;
    assert_eq!(r.find_matches(user(10), 1, end, &levels_at(end)), Ok(vec![user(12)]));
    assert_eq!(r.find_matches(user(10), 1, end + 1, &levels_at(end + 1)), Ok(vec![user(11)]));
}

#[test]
fn levels_are_asked_for_candidates_only() {
    let mut r = crowd(&[0, 10, 20, 30, 40]);
    assert_eq!(r.verify_poap(user(10), v(7), NOW, true), Ok(()));
    assert_eq!(r.verify_poap(user(11), v(8), NOW, true), Ok(()));
    assert_eq!(r.verify_poap(user(12), v(7), NOW, true), Ok(()));
    assert_eq!(r.verify_poap(user(14), v(7), NOW, true), Ok(()));
    assert_eq!(r.boost_queries(user(10), NOW), Ok(vec![user(12), user(14)]));
    assert_eq!(r.boost_queries(user(12), NOW), Ok(vec![user(10), user(14)]));
    assert_eq!(r.boost_queries(user(11), NOW), Ok(vec![]));
    assert_eq!(r.boost_queries(user(13), NOW), Ok(vec![]));
    assert_eq!(r.boost_queries(user(99), NOW), Err(MainContractError::NotRegistered));
    let later = NOW + 2_592_001;
    assert_eq!(r.update_location(user(14), String::new(), v(1_040), v(1_000), later), Ok(()));
    assert_eq!(r.boost_queries(user(10), later), Ok(vec![user(14)]));
    // The only answer goes to the only candidate left, the account at the place 4.
    assert_eq!(
        r.rank_candidates(user(10), later, &vec![Some(v(100))]).unwrap(),
        vec![Candidate { place: 4, account: user(14), score: v(116) }]
    );
}

#[test]
fn ledger_is_asked_only_when_named() {
    let mut r = MainContract::new();
    assert_eq!(r.init(admin()), Ok(()));
    assert_eq!(r.ledger_to_ask(), None);
    assert_eq!(r.set_contracts(admin(), user(100), user(101)), Ok(()));
    assert_eq!(r.ledger_to_ask(), Some(user(101)));
    assert_eq!(r.get_boost_manager(), user(101));
    assert_eq!(r.get_poap_verifier(), user(100));
}
