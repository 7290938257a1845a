use boost_match::address::Address;
use boost_match::poap_verifier::{
    OwnershipAnswer, OwnershipQuery, OwnershipStep, POAPVerifier, POAPVerifierError,
    POAPVerifierErrorKind,
};
use boost_match::uint::U256;

fn acct(n: u64) -> Address {
    Address::new(0, 0, n)
}

fn token(n: u64) -> U256 {
    U256::from_u64(n)
}

fn fresh_verifier() -> POAPVerifier {
    let mut v = POAPVerifier::new();
    assert_eq!(v.init(acct(1)), Ok(()));
    v
}

fn failed() -> OwnershipStep {
    OwnershipStep::Done(Err(POAPVerifierError::call_failed()))
}

#[test]
fn errors_carry_their_kind() {
    assert_eq!(POAPVerifierError::unauthorized().kind, POAPVerifierErrorKind::Unauthorized);
    assert_eq!(POAPVerifierError::poap_not_owned().kind, POAPVerifierErrorKind::POAPNotOwned);
    assert_eq!(POAPVerifierError::invalid_poap().kind, POAPVerifierErrorKind::InvalidPOAP);
    assert_eq!(POAPVerifierError::call_failed().kind, POAPVerifierErrorKind::CallFailed);
}

#[test]
fn verifier_init_works_only_once() {
    let mut v = fresh_verifier();
    assert_eq!(v.init(acct(2)), Err(POAPVerifierError::unauthorized()));
    assert!(v.is_operator(acct(1)));
    assert!(!v.is_operator(acct(2)));
}

#[test]
fn verifier_settings_are_for_the_owner() {
    let mut v = fresh_verifier();
    assert_eq!(v.set_main_contract(acct(2), acct(50)), Err(POAPVerifierError::unauthorized()));
    assert_eq!(v.set_poap_oracle(acct(2), acct(51)), Err(POAPVerifierError::unauthorized()));
    assert_eq!(v.update_poap_contract(acct(2), acct(52)), Err(POAPVerifierError::unauthorized()));
    assert_eq!(v.add_operator(acct(2), acct(8)), Err(POAPVerifierError::unauthorized()));
    assert_eq!(v.remove_operator(acct(2), acct(8)), Err(POAPVerifierError::unauthorized()));
    assert_eq!(v.set_main_contract(acct(1), Address::zero()), Err(POAPVerifierError::invalid_poap()));
    assert_eq!(v.first_query(), failed());
    assert!(!v.is_operator(acct(50)));
}

#[test]
fn registry_and_operators_may_verify() {
    let mut v = fresh_verifier();
    assert_eq!(v.set_main_contract(acct(1), acct(50)), Ok(()));
    assert_eq!(v.add_operator(acct(1), acct(8)), Ok(()));
    assert!(v.is_operator(acct(50)));
    assert!(v.is_operator(acct(8)));
    assert_eq!(v.remove_operator(acct(1), acct(8)), Ok(()));
    assert!(!v.is_operator(acct(8)));
    assert_eq!(v.set_main_contract(acct(1), acct(60)), Ok(()));
    assert!(v.is_operator(acct(60)));
    assert!(v.is_operator(acct(50)));
}

#[test]
fn search_without_any_service_fails() {
    let v = fresh_verifier();
    assert_eq!(v.first_query(), failed());
}

#[test]
fn search_begins_with_the_owner_of_the_token() {
    let mut v = fresh_verifier();
    assert_eq!(v.update_poap_contract(acct(1), acct(52)), Ok(()));
    assert_eq!(v.first_query(), OwnershipStep::Ask(OwnershipQuery::Owner));
    assert_eq!(v.update_poap_contract(acct(1), Address::zero()), Ok(()));
    assert_eq!(v.first_query(), failed());
}

#[test]
fn search_begins_with_the_oracle_without_a_token_contract() {
    let mut v = fresh_verifier();
    assert_eq!(v.set_poap_oracle(acct(1), acct(51)), Ok(()));
    assert_eq!(v.first_query(), OwnershipStep::Ask(OwnershipQuery::Oracle));
}

#[test]
fn owner_of_the_token_settles_the_search() {
    let v = fresh_verifier();
    assert_eq!(
        v.check_poap_ownership(acct(5), token(9), OwnershipQuery::Owner, OwnershipAnswer::Owner(acct(5))),
        OwnershipStep::Done(Ok(true))
    );
    assert_eq!(
        v.check_poap_ownership(acct(5), token(9), OwnershipQuery::Owner, OwnershipAnswer::Owner(acct(6))),
        OwnershipStep::Done(Ok(false))
    );
    assert_eq!(
        v.check_poap_ownership(acct(5), token(9), OwnershipQuery::Owner, OwnershipAnswer::Failed),
        OwnershipStep::Ask(OwnershipQuery::Balance)
    );
    assert_eq!(
        v.check_poap_ownership(acct(5), token(9), OwnershipQuery::Owner, OwnershipAnswer::Oracle(true)),
        OwnershipStep::Ask(OwnershipQuery::Balance)
    );
}

#[test]
fn balance_leads_through_the_tokens() {
    let v = fresh_verifier();
    let ask = |asked, answer| v.check_poap_ownership(acct(5), token(9), asked, answer);
    assert_eq!(
        ask(OwnershipQuery::Balance, OwnershipAnswer::Balance(token(0))),
        OwnershipStep::Done(Ok(false))
    );
    assert_eq!(
        ask(OwnershipQuery::Balance, OwnershipAnswer::Balance(token(3))),
        OwnershipStep::Ask(OwnershipQuery::Token { index: 0, count: 3 })
    );
    assert_eq!(
        ask(OwnershipQuery::Balance, OwnershipAnswer::Balance(U256::max_value())),
        OwnershipStep::Ask(OwnershipQuery::Token { index: 0, count: u64::MAX })
    );
    assert_eq!(
        ask(OwnershipQuery::Token { index: 0, count: 3 }, OwnershipAnswer::Token(token(4))),
        OwnershipStep::Ask(OwnershipQuery::Token { index: 1, count: 3 })
    );
    assert_eq!(
        ask(OwnershipQuery::Token { index: 1, count: 3 }, OwnershipAnswer::Failed),
        OwnershipStep::Ask(OwnershipQuery::Token { index: 2, count: 3 })
    );
    assert_eq!(
        ask(OwnershipQuery::Token { index: 2, count: 3 }, OwnershipAnswer::Token(token(8))),
        OwnershipStep::Done(Ok(false))
    );
    assert_eq!(
        ask(OwnershipQuery::Token { index: 1, count: 3 }, OwnershipAnswer::Token(token(9))),
        OwnershipStep::Done(Ok(true))
    );
    assert_eq!(
        ask(
            OwnershipQuery::Token { index: u64::MAX, count: u64::MAX },
            OwnershipAnswer::Token(token(8))
        ),
        OwnershipStep::Done(Ok(false))
    );
}

#[test]
fn missing_balance_leads_to_the_oracle() {
    let mut v = fresh_verifier();
    assert_eq!(
        v.check_poap_ownership(acct(5), token(9), OwnershipQuery::Balance, OwnershipAnswer::Failed),
        failed()
    );
    assert_eq!(v.set_poap_oracle(acct(1), acct(51)), Ok(()));
    assert_eq!(
        v.check_poap_ownership(acct(5), token(9), OwnershipQuery::Balance, OwnershipAnswer::Failed),
        OwnershipStep::Ask(OwnershipQuery::Oracle)
    );
    assert_eq!(
        v.check_poap_ownership(acct(5), token(9), OwnershipQuery::Oracle, OwnershipAnswer::Oracle(true)),
        OwnershipStep::Done(Ok(true))
    );
    assert_eq!(
        v.check_poap_ownership(acct(5), token(9), OwnershipQuery::Oracle, OwnershipAnswer::Oracle(false)),
        OwnershipStep::Done(Ok(false))
    );
    assert_eq!(
        v.check_poap_ownership(acct(5), token(9), OwnershipQuery::Oracle, OwnershipAnswer::Failed),
        failed()
    );
}

#[test]
fn verified_ownership_is_kept() {
    let mut v = fresh_verifier();
    assert_eq!(v.verify_poap_ownership(acct(1), acct(5), token(9), Ok(true)), Ok(true));
    assert_eq!(v.verify_poap_ownership(acct(1), acct(6), token(9), Ok(true)), Ok(true));
    assert_eq!(v.verify_poap_ownership(acct(1), acct(5), token(4), Ok(true)), Ok(true));
    assert_eq!(v.get_verified_poaps(acct(5)), vec![token(9), token(4)]);
    assert_eq!(v.get_verified_poaps(acct(6)), vec![token(9)]);
    assert!(v.get_verified_poaps(acct(7)).is_empty());
    assert_eq!(v.get_last_verified_poap(acct(5)), token(4));
    assert_eq!(v.get_last_verified_poap(acct(6)), token(9));
    assert!(v.get_last_verified_poap(acct(7)).is_zero());
    assert_eq!(v.get_poap_verification_count(token(9)), token(2));
    assert_eq!(v.get_poap_verification_count(token(4)), token(1));
    assert!(v.get_poap_verification_count(token(5)).is_zero());
    assert!(v.is_user_verified(acct(5)));
    assert!(!v.is_user_verified(acct(7)));
}

#[test]
fn ownership_not_found_is_not_kept() {
    let mut v = fresh_verifier();
    assert_eq!(v.verify_poap_ownership(acct(1), acct(5), token(9), Ok(false)), Ok(false));
    assert_eq!(
        v.verify_poap_ownership(acct(1), acct(5), token(9), Err(POAPVerifierError::call_failed())),
        Err(POAPVerifierError::call_failed())
    );
    assert!(v.get_verified_poaps(acct(5)).is_empty());
    assert!(!v.is_user_verified(acct(5)));
    assert!(v.get_poap_verification_count(token(9)).is_zero());
}

#[test]
fn verification_is_for_operators() {
    let mut v = fresh_verifier();
    assert_eq!(
        v.verify_poap_ownership(acct(5), acct(5), token(9), Ok(true)),
        Err(POAPVerifierError::unauthorized())
    );
    assert!(!v.is_user_verified(acct(5)));
    assert_eq!(v.add_operator(acct(1), acct(8)), Ok(()));
    assert_eq!(v.verify_poap_ownership(acct(8), acct(5), token(9), Ok(true)), Ok(true));
    assert!(v.is_user_verified(acct(5)));
}

#[test]
fn verification_begins_for_operators_only() {
    let mut v = fresh_verifier();
    assert_eq!(v.begin_verification(acct(5)), Err(POAPVerifierError::unauthorized()));
    assert_eq!(v.begin_verification(acct(1)), Ok(failed()));
    assert_eq!(v.update_poap_contract(acct(1), acct(52)), Ok(()));
    assert_eq!(v.begin_verification(acct(1)), Ok(OwnershipStep::Ask(OwnershipQuery::Owner)));
    assert_eq!(v.begin_verification(acct(5)), Err(POAPVerifierError::unauthorized()));
    assert_eq!(v.add_operator(acct(1), acct(5)), Ok(()));
    assert_eq!(v.begin_verification(acct(5)), Ok(OwnershipStep::Ask(OwnershipQuery::Owner)));
    assert_eq!(v.get_poap_contract(), acct(52));
    assert!(v.get_poap_oracle().is_zero());
}
