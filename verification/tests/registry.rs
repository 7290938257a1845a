use boost_match::address::Address;
use boost_match::boost_manager::{FundsWithdrawn, PendingWithdrawal};
use boost_match::main_contract::{
    MainContract, MainContractError, RegistrationFeeUpdated, DEFAULT_REGISTRATION_FEE,
    INACTIVITY_LIMIT,
};
use boost_match::uint::U256;

const FEE: u64 = 10_000_000_000_000_000;

fn who(n: u64) -> Address {
    Address::new(0, 0, n)
}

fn val(n: u64) -> U256 {
    U256::from_u64(n)
}

fn owner() -> Address {
    who(1)
}

fn registry() -> MainContract {
    let mut r = MainContract::new();
    assert_eq!(r.init(owner()), Ok(()));
    assert_eq!(r.set_contracts(owner(), who(100), who(101)), Ok(()));
    r
}

fn registry_with(users: &[u64]) -> MainContract {
    let mut r = registry();
    for u in users {
        assert_eq!(r.register_user(who(*u), val(FEE), 1_000), Ok(()));
    }
    r
}

#[test]
fn new_registry_is_empty() {
    let r = MainContract::new();
    assert!(r.get_total_users().is_zero());
    assert!(r.get_total_funds().is_zero());
    assert!(r.get_registration_fee().is_zero());
    assert!(!r.is_user_registered(who(5)));
    assert!(r.registered_users().is_empty());
}

#[test]
fn registry_init_sets_default_fee() {
    let mut r = MainContract::new();
    assert_eq!(r.init(owner()), Ok(()));
    assert_eq!(r.get_registration_fee(), val(FEE));
    assert_eq!(DEFAULT_REGISTRATION_FEE, FEE);
    assert!(r.is_operator(owner()));
    assert!(!r.is_operator(who(2)));
    assert_eq!(r.init(who(2)), Err(MainContractError::Unauthorized));
    assert!(!r.is_operator(who(2)));
}

#[test]
fn set_contracts_is_for_the_owner_and_real_addresses() {
    let mut r = MainContract::new();
    assert_eq!(r.init(owner()), Ok(()));
    assert_eq!(r.set_contracts(who(2), who(100), who(101)), Err(MainContractError::Unauthorized));
    assert_eq!(
        r.set_contracts(owner(), Address::zero(), who(101)),
        Err(MainContractError::InvalidParameters)
    );
    assert_eq!(
        r.set_contracts(owner(), who(100), Address::zero()),
        Err(MainContractError::InvalidParameters)
    );
    assert_eq!(r.set_contracts(owner(), who(100), who(101)), Ok(()));
}

#[test]
fn registration_enters_the_account() {
    let mut r = registry();
    assert_eq!(r.register_user(who(5), val(FEE), 1_000), Ok(()));
    assert!(r.is_user_registered(who(5)));
    assert!(!r.is_user_registered(who(6)));
    assert_eq!(r.get_total_users(), val(1));
    assert_eq!(r.get_total_funds(), val(FEE));
    assert_eq!(r.registered_users(), vec![who(5)]);
    let (active, last, place, level, count, matches) = r.get_user_profile(who(5), None);
    assert!(active);
    assert_eq!(last, val(1_000));
    assert_eq!(place, "");
    assert!(level.is_zero());
    assert!(count.is_zero());
    assert!(matches.is_empty());
}

#[test]
fn registration_keeps_the_order() {
    let r = registry_with(&[9, 3, 7]);
    assert_eq!(r.registered_users(), vec![who(9), who(3), who(7)]);
    assert_eq!(r.get_total_users(), val(3));
    assert_eq!(r.get_total_funds(), val(3 * FEE));
}

#[test]
fn second_registration_is_refused() {
    let mut r = registry_with(&[5]);
    assert_eq!(
        r.register_user(who(5), val(FEE), 2_000),
        Err(MainContractError::AlreadyRegistered)
    );
    assert_eq!(r.get_total_users(), val(1));
    assert_eq!(r.get_total_funds(), val(FEE));
}

#[test]
fn registration_below_the_fee_is_refused() {
    let mut r = registry();
    assert_eq!(
        r.register_user(who(5), val(FEE - 1), 1_000),
        Err(MainContractError::InsufficientPayment)
    );
    assert!(!r.is_user_registered(who(5)));
    assert!(r.get_total_funds().is_zero());
    assert_eq!(r.register_user(who(5), val(FEE + 5), 1_000), Ok(()));
    assert_eq!(r.get_total_funds(), val(FEE + 5));
}

#[test]
fn registration_that_the_funds_cannot_hold_is_refused() {
    let mut r = registry();
    assert_eq!(r.register_user(who(5), U256::max_value(), 1_000), Ok(()));
    assert_eq!(
        r.register_user(who(6), val(FEE), 1_000),
        Err(MainContractError::InvalidParameters)
    );
    assert!(!r.is_user_registered(who(6)));
    assert_eq!(r.get_total_funds(), U256::max_value());
}

#[test]
fn fee_is_changed_by_the_owner_only() {
    let mut r = registry();
    assert_eq!(
        r.update_registration_fee(owner(), val(7)),
        Ok(RegistrationFeeUpdated { old_fee: val(FEE), new_fee: val(7) })
    );
    assert_eq!(r.get_registration_fee(), val(7));
    assert_eq!(r.update_registration_fee(who(2), val(1)), Err(MainContractError::Unauthorized));
    assert_eq!(r.get_registration_fee(), val(7));
    assert_eq!(r.register_user(who(5), val(7), 1_000), Ok(()));
    assert_eq!(r.register_user(who(6), val(6), 1_000), Err(MainContractError::InsufficientPayment));
}

#[test]
fn operators_are_managed_by_the_owner() {
    let mut r = registry();
    assert_eq!(r.add_operator(who(2), who(8)), Err(MainContractError::Unauthorized));
    assert_eq!(r.add_operator(owner(), Address::zero()), Err(MainContractError::InvalidParameters));
    assert!(!r.is_operator(who(8)));
    assert_eq!(r.add_operator(owner(), who(8)), Ok(()));
    assert!(r.is_operator(who(8)));
    assert_eq!(r.remove_operator(who(8), who(8)), Err(MainContractError::Unauthorized));
    assert_eq!(r.remove_operator(owner(), who(8)), Ok(()));
    assert!(!r.is_operator(who(8)));
    assert_eq!(r.add_operator(owner(), owner()), Ok(()));
    assert_eq!(r.remove_operator(owner(), owner()), Ok(()));
    assert!(r.is_operator(owner()));
}

#[test]
fn location_is_kept_for_registered_accounts() {
    let mut r = registry_with(&[5]);
    assert_eq!(
        r.update_location(who(6), String::from("Lima"), val(3), val(4), 2_000),
        Err(MainContractError::NotRegistered)
    );
    assert_eq!(r.update_location(who(5), String::from("Lima"), val(3), val(4), 2_000), Ok(()));
    let (active, last, place, _, _, _) = r.get_user_profile(who(5), None);
    assert!(active);
    assert_eq!(last, val(2_000));
    assert_eq!(place, "Lima");
}

#[test]
fn account_is_active_for_thirty_days() {
    let r = registry_with(&[5]);
    assert_eq!(INACTIVITY_LIMIT, 2_592_000);
    assert!(r.is_user_active(who(5), 1_000));
    assert!(r.is_user_active(who(5), 1_000 + 2_592_000));
    assert!(!r.is_user_active(who(5), 1_000 + 2_592_001));
    assert!(r.is_user_active(who(5), 10));
    assert!(!r.is_user_active(who(6), 1_000));
}

#[test]
fn verification_enters_the_interest() {
    let mut r = registry_with(&[5]);
    assert_eq!(r.verify_poap(who(5), val(77), 3_000, true), Ok(()));
    assert_eq!(r.get_user_poaps(who(5)), vec![val(77)]);
    assert_eq!(r.get_last_verified_poap(who(5)), val(77));
    assert_eq!(r.verify_poap(who(5), val(78), 4_000, true), Ok(()));
    assert_eq!(r.verify_poap(who(5), val(77), 5_000, true), Ok(()));
    assert_eq!(r.get_user_poaps(who(5)), vec![val(77), val(78), val(77)]);
    assert_eq!(r.get_last_verified_poap(who(5)), val(77));
    let (_, last, _, _, count, _) = r.get_user_profile(who(5), None);
    assert_eq!(last, val(5_000));
    assert_eq!(count, val(3));
    assert!(r.get_user_poaps(who(6)).is_empty());
    assert!(r.get_last_verified_poap(who(6)).is_zero());
}

#[test]
fn verification_is_refused_in_order() {
    let mut r = MainContract::new();
    assert_eq!(r.init(owner()), Ok(()));
    assert_eq!(r.verify_poap(who(5), val(77), 3_000, true), Err(MainContractError::NotRegistered));
    assert_eq!(r.register_user(who(5), val(FEE), 1_000), Ok(()));
    assert_eq!(
        r.verify_poap(who(5), val(77), 3_000, true),
        Err(MainContractError::CollaboratorNotConfigured)
    );
    assert_eq!(
        r.verify_poap(who(5), val(77), 3_000, false),
        Err(MainContractError::CollaboratorNotConfigured)
    );
    assert_eq!(r.set_contracts(owner(), who(100), who(101)), Ok(()));
    assert_eq!(
        r.verify_poap(who(5), val(77), 3_000, false),
        Err(MainContractError::VerificationFailed)
    );
    assert!(r.get_user_poaps(who(5)).is_empty());
    let (_, last, _, _, _, _) = r.get_user_profile(who(5), None);
    assert_eq!(last, val(1_000));
    assert_eq!(r.verify_poap(who(5), val(77), 3_000, true), Ok(()));
}

#[test]
fn two_verifications_of_one_interest_score_fifty() {
    let mut r = registry_with(&[5, 6]);
    assert_eq!(r.verify_poap(who(5), val(77), 3_000, true), Ok(()));
    assert_eq!(r.verify_poap(who(6), val(77), 3_000, true), Ok(()));
    assert_eq!(r.check_compatibility(who(5), who(6)), Ok(val(50)));
    assert_eq!(r.check_compatibility(who(6), who(5)), Ok(val(50)));
}

#[test]
fn repeated_verification_lowers_the_weight() {
    let mut r = registry_with(&[5, 6]);
    assert_eq!(r.verify_poap(who(5), val(77), 3_000, true), Ok(()));
    assert_eq!(r.verify_poap(who(6), val(77), 3_000, true), Ok(()));
    assert_eq!(r.verify_poap(who(6), val(77), 3_000, true), Ok(()));
    assert_eq!(r.verify_poap(who(6), val(77), 3_000, true), Ok(()));
    assert_eq!(r.check_compatibility(who(5), who(6)), Ok(val(75)));
    assert_eq!(r.check_compatibility(who(6), who(5)), Ok(val(75)));
}

#[test]
fn compatibility_needs_registered_accounts_with_interests() {
    let mut r = registry_with(&[5, 6]);
    assert_eq!(r.check_compatibility(who(5), who(9)), Err(MainContractError::NotRegistered));
    assert_eq!(r.check_compatibility(who(9), who(5)), Err(MainContractError::NotRegistered));
    assert_eq!(r.check_compatibility(who(5), who(6)), Err(MainContractError::NoVerifiedInterests));
    assert_eq!(r.verify_poap(who(5), val(77), 3_000, true), Ok(()));
    assert_eq!(r.check_compatibility(who(5), who(6)), Err(MainContractError::NoVerifiedInterests));
    assert_eq!(r.check_compatibility(who(6), who(5)), Err(MainContractError::NoVerifiedInterests));
    assert_eq!(r.verify_poap(who(6), val(78), 3_000, true), Ok(()));
    assert_eq!(r.check_compatibility(who(5), who(6)), Ok(val(0)));
    assert_eq!(r.check_compatibility(who(5), who(5)), Ok(val(100)));
}

#[test]
fn match_is_entered_on_both_sides() {
    let mut r = registry_with(&[5, 6, 7]);
    assert_eq!(r.report_match(owner(), who(5), who(6)), Ok(()));
    assert_eq!(r.report_match(owner(), who(7), who(5)), Ok(()));
    assert_eq!(r.get_user_profile(who(5), None).5, vec![who(6), who(7)]);
    assert_eq!(r.get_user_profile(who(6), None).5, vec![who(5)]);
    assert_eq!(r.get_user_profile(who(7), None).5, vec![who(5)]);
    assert_eq!(r.get_user_profile(who(5), None).1, val(1_000));
}

#[test]
fn match_with_oneself_is_entered_twice() {
    let mut r = registry_with(&[5]);
    assert_eq!(r.report_match(owner(), who(5), who(5)), Ok(()));
    assert_eq!(r.get_user_profile(who(5), None).5, vec![who(5), who(5)]);
}

#[test]
fn match_is_reported_by_owner_or_operator() {
    let mut r = registry_with(&[5, 6]);
    assert_eq!(r.report_match(who(5), who(5), who(6)), Err(MainContractError::Unauthorized));
    assert_eq!(r.report_match(who(8), who(5), who(9)), Err(MainContractError::Unauthorized));
    assert_eq!(r.add_operator(owner(), who(8)), Ok(()));
    assert_eq!(r.report_match(who(8), who(5), who(9)), Err(MainContractError::NotRegistered));
    assert_eq!(r.report_match(who(8), who(9), who(5)), Err(MainContractError::NotRegistered));
    assert!(r.get_user_profile(who(5), None).5.is_empty());
    assert_eq!(r.report_match(who(8), who(5), who(6)), Ok(()));
    assert_eq!(r.get_user_profile(who(6), None).5, vec![who(5)]);
}

#[test]
fn profile_of_unknown_account_is_empty() {
    let r = registry_with(&[5]);
    let (active, last, place, level, count, matches) = r.get_user_profile(who(6), Some(val(9)));
    assert!(!active);
    assert!(last.is_zero());
    assert_eq!(place, "");
    assert!(level.is_zero());
    assert!(count.is_zero());
    assert!(matches.is_empty());
}

#[test]
fn boost_level_is_the_answer_of_the_ledger() {
    let r = registry_with(&[5]);
    assert_eq!(r.get_user_boost_level(Some(val(42))), val(42));
    assert!(r.get_user_boost_level(None).is_zero());
    assert_eq!(r.get_user_profile(who(5), Some(val(42))).3, val(42));
}

#[test]
fn boost_level_is_zero_without_a_ledger() {
    let mut r = MainContract::new();
    assert_eq!(r.init(owner()), Ok(()));
    assert_eq!(r.register_user(who(5), val(FEE), 1_000), Ok(()));
    assert!(r.get_user_boost_level(Some(val(42))).is_zero());
    assert!(r.get_user_profile(who(5), Some(val(42))).3.is_zero());
}

#[test]
fn registry_withdrawal_goes_through() {
    let mut r = registry_with(&[5, 6]);
    let pending = r.withdraw_funds(owner(), who(3), val(FEE)).unwrap();
    assert_eq!(
        pending,
        PendingWithdrawal { to: who(3), amount: val(FEE), previous_total: val(2 * FEE) }
    );
    assert_eq!(r.get_total_funds(), val(FEE));
    assert_eq!(
        r.settle_withdrawal(pending, true, 9),
        Ok(FundsWithdrawn { to: who(3), amount: val(FEE), timestamp: 9 })
    );
    assert_eq!(r.get_total_funds(), val(FEE));
}

#[test]
fn registry_withdrawal_is_undone_when_the_transfer_fails() {
    let mut r = registry_with(&[5, 6]);
    let pending = r.withdraw_funds(owner(), who(3), val(FEE + 1)).unwrap();
    assert_eq!(r.get_total_funds(), val(FEE - 1));
    assert_eq!(r.settle_withdrawal(pending, false, 9), Err(MainContractError::WithdrawalFailed));
    assert_eq!(r.get_total_funds(), val(2 * FEE));
}

#[test]
fn registry_withdrawal_is_refused() {
    let mut r = registry_with(&[5]);
    assert_eq!(r.withdraw_funds(who(5), who(3), val(1)), Err(MainContractError::Unauthorized));
    assert_eq!(
        r.withdraw_funds(owner(), Address::zero(), val(1)),
        Err(MainContractError::InvalidAddress)
    );
    assert_eq!(
        r.withdraw_funds(owner(), who(3), val(FEE + 1)),
        Err(MainContractError::InsufficientPayment)
    );
    assert_eq!(r.get_total_funds(), val(FEE));
}

#[test]
fn service_is_asked_for_registered_accounts_once_named() {
    let mut r = MainContract::new();
    assert_eq!(r.init(owner()), Ok(()));
    assert_eq!(r.verifier_to_ask(who(5)), Err(MainContractError::NotRegistered));
    assert_eq!(r.register_user(who(5), val(FEE), 1_000), Ok(()));
    assert_eq!(r.verifier_to_ask(who(5)), Err(MainContractError::CollaboratorNotConfigured));
    assert_eq!(r.set_contracts(owner(), who(100), who(101)), Ok(()));
    assert_eq!(r.verifier_to_ask(who(5)), Ok(who(100)));
    assert_eq!(r.verifier_to_ask(who(6)), Err(MainContractError::NotRegistered));
}
