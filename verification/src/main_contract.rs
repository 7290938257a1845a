//! The registry: who is registered, which interests each account has
//! verified, how popular each interest is, and who goes with whom.
//!
//! The registry is a plain value. The caller, the payment and the time of each
//! operation are arguments, and so is every answer of another service.

use vstd::prelude::*;
use crate::access::{members, OperatorSet};
use crate::address::Address;
use crate::boost_manager::{FundsWithdrawn, PendingWithdrawal};
use crate::ranking::{insert_ranked, lemma_ranked_lists_agree, precedes, ranked, Candidate};
use crate::scoring::{blended, compatibility, compatibility_score, count_of, counts, location_score, proximity, total_score};
use crate::table::{map_of, Table};
use crate::uint::{checked_add, less_than, lemma_view_injective, modulus, saturating_sub, U256};

verus! {

/// An account that did nothing for more than this many seconds is left out
/// of the matching: thirty days.
pub const INACTIVITY_LIMIT: u64 = 2_592_000;

/// The fee for a registration in a new registry.
pub const DEFAULT_REGISTRATION_FEE: u64 = 10_000_000_000_000_000;

/// Why an operation on the registry was refused.
#[derive(Clone, Copy, Debug, PartialEq, Eq, Structural)]
pub enum MainContractError {
    /// The caller may not do this.
    Unauthorized,
    /// The null address was given where a service or an operator is needed,
    /// or a number is out of the range that the registry can hold.
    InvalidParameters,
    /// The null address was given where funds are to go.
    InvalidAddress,
    /// The payment is below the fee, or more is withdrawn than is held.
    InsufficientPayment,
    /// The service that verifies interests has not been named.
    CollaboratorNotConfigured,
    /// The account was not found to own the interest.
    VerificationFailed,
    /// The account is registered already.
    AlreadyRegistered,
    /// The account is not registered.
    NotRegistered,
    /// The transfer of withdrawn funds did not go through.
    WithdrawalFailed,
    /// One of the two accounts has no verified interest.
    NoVerifiedInterests,
}

/// What the registry keeps of one account.
pub struct UserProfile {
    pub account: Address,
    pub is_active: bool,
    pub registration_time: U256,
    /// When the account last did something, in seconds.
    pub last_active: U256,
    pub location: String,
    /// Zero while the place is not known.
    pub longitude: U256,
    /// Zero while the place is not known.
    pub latitude: U256,
    /// The verified interests in the order of their verification; one that
    /// was verified twice stands twice.
    pub interests: Vec<U256>,
    /// The accounts that this one was matched with.
    pub matches: Vec<Address>,
}

/// A profile as mathematics.
pub struct ProfileView {
    pub account: Address,
    pub is_active: bool,
    pub registration_time: nat,
    pub last_active: nat,
    pub location: Seq<char>,
    pub longitude: nat,
    pub latitude: nat,
    pub interests: Seq<U256>,
    pub matches: Seq<Address>,
}

impl View for UserProfile {
    type V = ProfileView;

    open spec fn view(&self) -> ProfileView {
        ProfileView {
            account: self.account,
            is_active: self.is_active,
            registration_time: self.registration_time@,
            last_active: self.last_active@,
            location: self.location@,
            longitude: self.longitude@,
            latitude: self.latitude@,
            interests: self.interests@,
            matches: self.matches@,
        }
    }
}

impl ProfileView {
    /// The profile of an account that has just registered at the time `now`.
    pub open spec fn fresh(account: Address, now: nat) -> ProfileView {
        ProfileView {
            account,
            is_active: true,
            registration_time: now,
            last_active: now,
            location: Seq::empty(),
            longitude: 0,
            latitude: 0,
            interests: Seq::empty(),
            matches: Seq::empty(),
        }
    }

    /// Whether the account is registered and did something within the last
    /// thirty days before `now`.
    pub open spec fn recently_active(self, now: nat) -> bool {
        self.is_active && now <= self.last_active + INACTIVITY_LIMIT as nat
    }
}

/// The profiles as mathematics, in the same order.
pub open spec fn profiles(users: Seq<UserProfile>) -> Seq<ProfileView> {
    Seq::new(users.len(), |i: int| users[i]@)
}

/// The fee for a registration was changed.
#[derive(Clone, Copy, Debug, PartialEq, Eq, Structural)]
pub struct RegistrationFeeUpdated {
    pub old_fee: U256,
    pub new_fee: U256,
}

/// The registry as mathematics: what every contract of [`MainContract`]
/// speaks of.
pub struct RegistryView {
    /// The profiles in the order of registration.
    pub users: Seq<ProfileView>,
    /// How often each interest was verified.
    pub popularity: Map<U256, nat>,
    /// The service that verifies interests; the null address while there is
    /// none.
    pub poap_verifier: Address,
    /// The boost ledger; the null address while there is none.
    pub boost_manager: Address,
    /// The owner; the null address while there is none.
    pub owner: Address,
    /// The accounts that were made operators.
    pub operators: Set<Address>,
    /// The fee for a registration.
    pub registration_fee: nat,
    /// The funds collected and not withdrawn.
    pub total_funds: nat,
}

impl RegistryView {
    /// A registry that nobody has touched.
    pub open spec fn empty() -> RegistryView {
        RegistryView {
            users: Seq::empty(),
            popularity: Map::empty(),
            poap_verifier: Address::null(),
            boost_manager: Address::null(),
            owner: Address::null(),
            operators: Set::empty(),
            registration_fee: 0,
            total_funds: 0,
        }
    }

    /// What holds of every registry that the operations can lead to: no two
    /// profiles are of the same account, the fee and the funds fit in 256
    /// bits, and the owner is not among the operators.
    pub open spec fn valid(self) -> bool {
        &&& self.registration_fee < modulus()
        &&& self.total_funds < modulus()
        &&& !self.operators.contains(self.owner)
        &&& forall|i: int, j: int|
            0 <= i < j < self.users.len() ==> self.users[i].account != self.users[j].account
    }

    /// `i` is the place of the first profile of `account`.
    pub open spec fn is_first(self, account: Address, i: int) -> bool {
        &&& 0 <= i < self.users.len()
        &&& self.users[i].account == account
        &&& forall|j: int| 0 <= j < i ==> self.users[j].account != account
    }

    /// Whether `account` has a profile.
    pub open spec fn has_profile(self, account: Address) -> bool {
        exists|i: int| self.is_first(account, i)
    }

    /// The place of the profile of `account`, where it has one.
    pub open spec fn index_of(self, account: Address) -> int {
        choose|i: int| self.is_first(account, i)
    }

    /// The profile of `account`, where it has one.
    pub open spec fn profile_of(self, account: Address) -> ProfileView {
        self.users[self.index_of(account)]
    }

    /// Whether `account` is registered.
    pub open spec fn registered(self, account: Address) -> bool {
        self.has_profile(account) && self.profile_of(account).is_active
    }

    /// Whether `account` is registered and did something within the last
    /// thirty days before `now`.
    pub open spec fn active(self, account: Address, now: nat) -> bool {
        self.has_profile(account) && self.profile_of(account).recently_active(now)
    }

    /// Whether `account` is the owner or an operator.
    pub open spec fn is_operator(self, account: Address) -> bool {
        account == self.owner || self.operators.contains(account)
    }

    /// The registry after `caller` has taken ownership of it.
    pub open spec fn initialized(self, caller: Address) -> RegistryView {
        RegistryView {
            owner: caller,
            registration_fee: DEFAULT_REGISTRATION_FEE as nat,
            total_funds: 0,
            operators: self.operators.remove(caller),
            ..self
        }
    }

    /// The registry after `account` was made an operator. The owner holds
    /// every right already and is not entered.
    pub open spec fn with_operator(self, account: Address) -> RegistryView {
        if account == self.owner {
            self
        } else {
            RegistryView { operators: self.operators.insert(account), ..self }
        }
    }

    /// The registry after `account` ceased to be an operator.
    pub open spec fn without_operator(self, account: Address) -> RegistryView {
        RegistryView { operators: self.operators.remove(account), ..self }
    }

    /// The registry with the two services named.
    pub open spec fn with_contracts(self, verifier: Address, manager: Address) -> RegistryView {
        RegistryView { poap_verifier: verifier, boost_manager: manager, ..self }
    }

    /// The registry with the profile at the place `i` replaced.
    pub open spec fn with_profile(self, i: int, profile: ProfileView) -> RegistryView {
        RegistryView { users: self.users.update(i, profile), ..self }
    }

    /// Why a registration of `sender` with `payment` is refused, if it is.
    pub open spec fn registration_error(self, sender: Address, payment: nat) -> Option<
        MainContractError,
    > {
        if self.registered(sender) {
            Some(MainContractError::AlreadyRegistered)
        } else if payment < self.registration_fee {
            Some(MainContractError::InsufficientPayment)
        } else if self.total_funds + payment >= modulus() {
            Some(MainContractError::InvalidParameters)
        } else {
            None
        }
    }

    /// The registry after `sender` registered at the time `now` and paid
    /// `payment`. A new account goes to the end of the list; one that has a
    /// profile from before keeps its place and what the profile holds.
    pub open spec fn with_registration(self, sender: Address, payment: nat, now: nat)
        -> RegistryView {
        RegistryView {
            users: if self.has_profile(sender) {
                self.users.update(
                    self.index_of(sender),
                    ProfileView {
                        is_active: true,
                        registration_time: now,
                        last_active: now,
                        ..self.profile_of(sender)
                    },
                )
            } else {
                self.users.push(ProfileView::fresh(sender, now))
            },
            total_funds: self.total_funds + payment,
            ..self
        }
    }

    /// The registry after `sender` gave its place at the time `now`.
    pub open spec fn with_location(
        self,
        sender: Address,
        location: Seq<char>,
        longitude: nat,
        latitude: nat,
        now: nat,
    ) -> RegistryView {
        self.with_profile(
            self.index_of(sender),
            ProfileView { location, longitude, latitude, last_active: now, ..self.profile_of(sender) },
        )
    }

    /// The registry with its funds set to `total`.
    pub open spec fn with_funds(self, total: nat) -> RegistryView {
        RegistryView { total_funds: total, ..self }
    }

    /// The registry with the fee for a registration set to `fee`.
    pub open spec fn with_fee(self, fee: nat) -> RegistryView {
        RegistryView { registration_fee: fee, ..self }
    }
}

/// All that a registry holds, as plain values: what is written down to keep
/// a registry, and read to have it back.
pub struct RegistryParts {
    /// The profiles in the order of registration.
    pub users: Vec<UserProfile>,
    /// How often each interest was verified; of two entries of one interest
    /// the later counts.
    pub popularity: Vec<(U256, U256)>,
    pub poap_verifier: Address,
    pub boost_manager: Address,
    pub owner: Address,
    /// Who was made an operator (`true`) and who ceased to be one (`false`);
    /// of two entries of one account the later counts.
    pub operators: Vec<(Address, bool)>,
    pub registration_fee: U256,
    pub total_funds: U256,
}

impl View for RegistryParts {
    type V = RegistryView;

    open spec fn view(&self) -> RegistryView {
        RegistryView {
            users: profiles(self.users@),
            popularity: counts(map_of(self.popularity@)),
            poap_verifier: self.poap_verifier,
            boost_manager: self.boost_manager,
            owner: self.owner,
            operators: members(self.operators@),
            registration_fee: self.registration_fee@,
            total_funds: self.total_funds@,
        }
    }
}

/// The registry with its treasury.
pub struct MainContract {
    users: Vec<UserProfile>,
    popularity: Table<U256, U256>,
    poap_verifier: Address,
    boost_manager: Address,
    owner: Address,
    operators: OperatorSet,
    registration_fee: U256,
    total_funds: U256,
}

impl View for MainContract {
    type V = RegistryView;

    closed spec fn view(&self) -> RegistryView {
        RegistryView {
            users: profiles(self.users@),
            popularity: counts(self.popularity@),
            poap_verifier: self.poap_verifier,
            boost_manager: self.boost_manager,
            owner: self.owner,
            operators: self.operators@,
            registration_fee: self.registration_fee@,
            total_funds: self.total_funds@,
        }
    }
}

impl MainContract {
    /// A registry that nobody has touched: no owner, no accounts, no funds.
    pub fn new() -> (r: MainContract)
        ensures
            r@ == RegistryView::empty(),
    {
        let r = MainContract {
            users: Vec::new(),
            popularity: Table::new(),
            poap_verifier: Address::zero(),
            boost_manager: Address::zero(),
            owner: Address::zero(),
            operators: OperatorSet::new(),
            registration_fee: U256::zero(),
            total_funds: U256::zero(),
        };
        assert(r@.users =~= Seq::empty());
        assert(r@.popularity =~= Map::empty());
        r
    }

    /// The registry that `parts` holds.
    pub fn from_parts(parts: RegistryParts) -> (r: MainContract)
        ensures
            r@ == parts@,
    {
        MainContract {
            users: parts.users,
            popularity: Table::from_entries(parts.popularity),
            poap_verifier: parts.poap_verifier,
            boost_manager: parts.boost_manager,
            owner: parts.owner,
            operators: OperatorSet::from_entries(parts.operators),
            registration_fee: parts.registration_fee,
            total_funds: parts.total_funds,
        }
    }

    /// All that the registry holds, as plain values.
    pub fn into_parts(self) -> (parts: RegistryParts)
        ensures
            parts@ == self@,
    {
        RegistryParts {
            users: self.users,
            popularity: self.popularity.into_entries(),
            poap_verifier: self.poap_verifier,
            boost_manager: self.boost_manager,
            owner: self.owner,
            operators: self.operators.into_entries(),
            registration_fee: self.registration_fee,
            total_funds: self.total_funds,
        }
    }

    /// The place of the first profile of `account`, if it has one.
    fn find(&self, account: Address) -> (r: Option<usize>)
        ensures
            match r {
                Some(i) => self@.is_first(account, i as int) && self@.has_profile(account)
                    && self@.index_of(account) == i,
                None => !self@.has_profile(account),
            },
    {
        let mut i: usize = 0;
        while i < self.users.len()
            invariant
                i <= self.users@.len(),
                forall|j: int| 0 <= j < i ==> self.users@[j].account != account,
            decreases self.users@.len() - i,
        {
            if self.users[i].account == account {
                assert(self@.is_first(account, i as int));
                return Some(i);
            }
            i += 1;
        }
        assert forall|k: int| !self@.is_first(account, k) by {
            if 0 <= k < self.users@.len() {
                assert(self@.users[k].account == self.users@[k].account);
            }
        }
        None
    }

    /// Makes `caller` the owner. This works once: with an owner in place it is
    /// refused. The fee goes to its default and the funds to zero.
    pub fn init(&mut self, caller: Address) -> (r: Result<(), MainContractError>)
        ensures
            old(self)@.owner == Address::null() ==> r.is_ok() && final(self)@ == old(
                self,
            )@.initialized(caller),
            old(self)@.owner != Address::null() ==> r == Err::<(), _>(
                MainContractError::Unauthorized,
            ) && final(self)@ == old(self)@,
    {
        if !self.owner.is_zero() {
            return Err(MainContractError::Unauthorized);
        }
        self.owner = caller;
        self.operators.revoke(caller);
        self.registration_fee = U256::from_u64(DEFAULT_REGISTRATION_FEE);
        self.total_funds = U256::zero();
        Ok(())
    }

    /// Names the service that verifies interests and the boost ledger. Only
    /// the owner may; the null address is refused for either.
    pub fn set_contracts(&mut self, caller: Address, poap_verifier: Address, boost_manager: Address)
        -> (r: Result<(), MainContractError>)
        ensures
            r == if caller != old(self)@.owner {
                Err::<(), _>(MainContractError::Unauthorized)
            } else if poap_verifier == Address::null() || boost_manager == Address::null() {
                Err(MainContractError::InvalidParameters)
            } else {
                Ok(())
            },
            r.is_ok() ==> final(self)@ == old(self)@.with_contracts(poap_verifier, boost_manager),
            r.is_err() ==> final(self)@ == old(self)@,
    {
        if caller != self.owner {
            return Err(MainContractError::Unauthorized);
        }
        if poap_verifier.is_zero() || boost_manager.is_zero() {
            return Err(MainContractError::InvalidParameters);
        }
        self.poap_verifier = poap_verifier;
        self.boost_manager = boost_manager;
        Ok(())
    }

    /// Makes `operator` an operator. Only the owner may; the null address is
    /// refused.
    pub fn add_operator(&mut self, caller: Address, operator: Address) -> (r: Result<
        (),
        MainContractError,
    >)
        ensures
            r == if caller != old(self)@.owner {
                Err::<(), _>(MainContractError::Unauthorized)
            } else if operator == Address::null() {
                Err(MainContractError::InvalidParameters)
            } else {
                Ok(())
            },
            r.is_ok() ==> final(self)@ == old(self)@.with_operator(operator),
            r.is_err() ==> final(self)@ == old(self)@,
    {
        if caller != self.owner {
            return Err(MainContractError::Unauthorized);
        }
        if operator.is_zero() {
            return Err(MainContractError::InvalidParameters);
        }
        if operator != self.owner {
            self.operators.grant(operator);
        }
        Ok(())
    }

    /// Takes `operator` out of the operators. Only the owner may.
    pub fn remove_operator(&mut self, caller: Address, operator: Address) -> (r: Result<
        (),
        MainContractError,
    >)
        ensures
            r == if caller != old(self)@.owner {
                Err::<(), _>(MainContractError::Unauthorized)
            } else {
                Ok(())
            },
            r.is_ok() ==> final(self)@ == old(self)@.without_operator(operator),
            r.is_err() ==> final(self)@ == old(self)@,
    {
        if caller != self.owner {
            return Err(MainContractError::Unauthorized);
        }
        self.operators.revoke(operator);
        Ok(())
    }

    /// Whether `account` is the owner or an operator.
    pub fn is_operator(&self, account: Address) -> (r: bool)
        ensures
            r == self@.is_operator(account),
    {
        account == self.owner || self.operators.contains(account)
    }

    /// Whether `user` is registered.
    pub fn is_user_registered(&self, user: Address) -> (r: bool)
        ensures
            r == self@.registered(user),
    {
        match self.find(user) {
            Some(i) => self.users[i].is_active,
            None => false,
        }
    }

    /// Whether `user` is registered and did something within the last thirty
    /// days before `now`.
    pub fn is_user_active(&self, user: Address, now: u64) -> (r: bool)
        ensures
            r == self@.active(user, now as nat),
    {
        match self.find(user) {
            Some(i) => recently_active(&self.users[i], now),
            None => false,
        }
    }

    /// Registers `sender`, who pays `payment` at the time `now`. An account
    /// that is registered already is refused, and so is a payment below the
    /// fee. A refused registration changes nothing.
    pub fn register_user(&mut self, sender: Address, payment: U256, now: u64) -> (r: Result<
        (),
        MainContractError,
    >)
        ensures
            r == match old(self)@.registration_error(sender, payment@) {
                Some(e) => Err::<(), _>(e),
                None => Ok(()),
            },
            r.is_ok() ==> final(self)@ == old(self)@.with_registration(
                sender,
                payment@,
                now as nat,
            ),
            r.is_err() ==> final(self)@ == old(self)@,
    {
        let place = self.find(sender);
        match place {
            Some(i) => {
                if self.users[i].is_active {
                    return Err(MainContractError::AlreadyRegistered);
                }
            },
            None => {},
        }
        if less_than(payment, self.registration_fee) {
            return Err(MainContractError::InsufficientPayment);
        }
        let total = match checked_add(self.total_funds, payment) {
            Some(t) => t,
            None => {
                return Err(MainContractError::InvalidParameters);
            },
        };
        self.total_funds = total;
        let time = U256::from_u64(now);
        match place {
            Some(i) => {
                self.users[i].is_active = true;
                self.users[i].registration_time = time;
                self.users[i].last_active = time;
            },
            None => {
                self.users.push(
                    UserProfile {
                        account: sender,
                        is_active: true,
                        registration_time: time,
                        last_active: time,
                        location: String::new(),
                        longitude: U256::zero(),
                        latitude: U256::zero(),
                        interests: Vec::new(),
                        matches: Vec::new(),
                    },
                );
            },
        }
        assert(self@.users =~= old(self)@.with_registration(sender, payment@, now as nat).users);
        Ok(())
    }

    /// Records the place of `sender` at the time `now`. Only a registered
    /// account has a place.
    pub fn update_location(
        &mut self,
        sender: Address,
        location: String,
        longitude: U256,
        latitude: U256,
        now: u64,
    ) -> (r: Result<(), MainContractError>)
        ensures
            r == if old(self)@.registered(sender) {
                Ok::<(), MainContractError>(())
            } else {
                Err(MainContractError::NotRegistered)
            },
            r.is_ok() ==> final(self)@ == old(self)@.with_location(
                sender,
                location@,
                longitude@,
                latitude@,
                now as nat,
            ),
            r.is_err() ==> final(self)@ == old(self)@,
    {
        let i = match self.find(sender) {
            Some(i) => i,
            None => {
                return Err(MainContractError::NotRegistered);
            },
        };
        if !self.users[i].is_active {
            return Err(MainContractError::NotRegistered);
        }
        self.users[i].location = location;
        self.users[i].longitude = longitude;
        self.users[i].latitude = latitude;
        self.users[i].last_active = U256::from_u64(now);
        assert(self@.users =~= old(self)@.with_location(
            sender,
            location@,
            longitude@,
            latitude@,
            now as nat,
        ).users);
        Ok(())
    }

    /// The service that verifies interests; the null address while there is
    /// none.
    pub fn get_poap_verifier(&self) -> (r: Address)
        ensures
            r == self@.poap_verifier,
    {
        self.poap_verifier
    }

    /// The boost ledger; the null address while there is none.
    pub fn get_boost_manager(&self) -> (r: Address)
        ensures
            r == self@.boost_manager,
    {
        self.boost_manager
    }

    /// The fee for a registration.
    pub fn get_registration_fee(&self) -> (r: U256)
        ensures
            r@ == self@.registration_fee,
    {
        self.registration_fee
    }

    /// The funds collected and not withdrawn.
    pub fn get_total_funds(&self) -> (r: U256)
        ensures
            r@ == self@.total_funds,
    {
        self.total_funds
    }

    /// How many accounts have a profile.
    pub fn get_total_users(&self) -> (r: U256)
        ensures
            r@ == self@.users.len(),
    {
        U256::from_u64(self.users.len() as u64)
    }
}

/// Whether the account of `profile` is registered and did something within
/// the last thirty days before `now`.
fn recently_active(profile: &UserProfile, now: u64) -> (r: bool)
    ensures
        r == profile@.recently_active(now as nat),
{
    if !profile.is_active {
        return false;
    }
    let idle = saturating_sub(U256::from_u64(now), profile.last_active);
    !less_than(U256::from_u64(INACTIVITY_LIMIT), idle)
}

impl RegistryView {
    /// Why the verification of an interest for `sender` is refused, if it is.
    /// `verified` is what the verifying service answered.
    pub open spec fn verification_error(self, sender: Address, interest: U256, verified: bool)
        -> Option<MainContractError> {
        if !self.registered(sender) {
            Some(MainContractError::NotRegistered)
        } else if self.poap_verifier == Address::null() {
            Some(MainContractError::CollaboratorNotConfigured)
        } else if !verified {
            Some(MainContractError::VerificationFailed)
        } else if count_of(self.popularity, interest) + 1 >= modulus() {
            Some(MainContractError::InvalidParameters)
        } else {
            None
        }
    }

    /// The registry after `sender` verified `interest` at the time `now`: the
    /// interest goes to the end of the account's list, and it has been
    /// verified once more.
    pub open spec fn with_interest(self, sender: Address, interest: U256, now: nat)
        -> RegistryView {
        RegistryView {
            users: self.users.update(
                self.index_of(sender),
                ProfileView {
                    interests: self.profile_of(sender).interests.push(interest),
                    last_active: now,
                    ..self.profile_of(sender)
                },
            ),
            popularity: self.popularity.insert(interest, count_of(self.popularity, interest) + 1),
            ..self
        }
    }

    /// The interests that `account` has verified.
    pub open spec fn interests_of(self, account: Address) -> Seq<U256> {
        if self.has_profile(account) {
            self.profile_of(account).interests
        } else {
            Seq::empty()
        }
    }

    /// Why the compatibility of two accounts cannot be told, if it cannot.
    pub open spec fn compatibility_error(self, first: Address, second: Address) -> Option<
        MainContractError,
    > {
        if !self.registered(first) || !self.registered(second) {
            Some(MainContractError::NotRegistered)
        } else if self.interests_of(first).len() == 0 || self.interests_of(second).len() == 0 {
            Some(MainContractError::NoVerifiedInterests)
        } else {
            None
        }
    }

    /// Why a match of two accounts reported by `caller` is refused, if it is.
    pub open spec fn match_error(self, caller: Address, first: Address, second: Address)
        -> Option<MainContractError> {
        if !self.is_operator(caller) {
            Some(MainContractError::Unauthorized)
        } else if !self.registered(first) || !self.registered(second) {
            Some(MainContractError::NotRegistered)
        } else {
            None
        }
    }

    /// The registry with `partner` at the end of the matches of the profile
    /// at the place `i`.
    pub open spec fn with_partner(self, i: int, partner: Address) -> RegistryView {
        self.with_profile(
            i,
            ProfileView { matches: self.users[i].matches.push(partner), ..self.users[i] },
        )
    }

    /// The registry after a match of `first` and `second` was reported: each
    /// stands at the end of the other's matches.
    pub open spec fn with_match(self, first: Address, second: Address) -> RegistryView {
        self.with_partner(self.index_of(first), second).with_partner(self.index_of(second), first)
    }

    /// The boost level that goes with an answer of the boost ledger: zero
    /// while no ledger is named or where the ledger gave no answer.
    pub open spec fn boost_level(self, answer: Option<U256>) -> nat {
        if self.boost_manager == Address::null() {
            0
        } else {
            match answer {
                Some(level) => level@,
                None => 0,
            }
        }
    }

    /// Why a withdrawal of `amount` to `to` by `caller` is refused, if it is.
    pub open spec fn withdrawal_error(self, caller: Address, to: Address, amount: nat) -> Option<
        MainContractError,
    > {
        if caller != self.owner {
            Some(MainContractError::Unauthorized)
        } else if to == Address::null() {
            Some(MainContractError::InvalidAddress)
        } else if amount > self.total_funds {
            Some(MainContractError::InsufficientPayment)
        } else {
            None
        }
    }
}

impl MainContract {
    /// Enters `interest` as verified for `sender` at the time `now`.
    /// `verified` is the answer of the verifying service to the question
    /// whether `sender` owns `interest`; where the service could not be
    /// asked, it is `false`. A refused verification changes nothing.
    pub fn verify_poap(&mut self, sender: Address, interest: U256, now: u64, verified: bool) -> (r:
        Result<(), MainContractError>)
        ensures
            r == match old(self)@.verification_error(sender, interest, verified) {
                Some(e) => Err::<(), _>(e),
                None => Ok(()),
            },
            r.is_ok() ==> final(self)@ == old(self)@.with_interest(sender, interest, now as nat),
            r.is_err() ==> final(self)@ == old(self)@,
    {
        let i = match self.find(sender) {
            Some(i) => i,
            None => {
                return Err(MainContractError::NotRegistered);
            },
        };
        if !self.users[i].is_active {
            return Err(MainContractError::NotRegistered);
        }
        if self.poap_verifier.is_zero() {
            return Err(MainContractError::CollaboratorNotConfigured);
        }
        if !verified {
            return Err(MainContractError::VerificationFailed);
        }
        let before = match self.popularity.get(&interest) {
            Some(c) => c,
            None => U256::zero(),
        };
        let after = match checked_add(before, U256::from_u64(1)) {
            Some(c) => c,
            None => {
                return Err(MainContractError::InvalidParameters);
            },
        };
        self.popularity.insert(interest, after);
        self.users[i].interests.push(interest);
        self.users[i].last_active = U256::from_u64(now);
        assert(self@.popularity =~= old(self)@.with_interest(
            sender,
            interest,
            now as nat,
        ).popularity);
        assert(self@.users =~= old(self)@.with_interest(sender, interest, now as nat).users);
        Ok(())
    }

    /// The compatibility of two registered accounts, from 0 to 100: every pair
    /// of equal interests, one of each account, adds the weight of the
    /// interest, and the sum is cut off at 100. An account without a verified
    /// interest has no compatibility with anyone.
    pub fn check_compatibility(&self, user1: Address, user2: Address) -> (r: Result<
        U256,
        MainContractError,
    >)
        ensures
            match r {
                Ok(score) => {
                    &&& self@.compatibility_error(user1, user2) is None
                    &&& score@ == compatibility(
                        self@.interests_of(user1),
                        self@.interests_of(user2),
                        self@.popularity,
                    )
                },
                Err(e) => self@.compatibility_error(user1, user2) == Some(e),
            },
    {
        let i = match self.find(user1) {
            Some(i) => i,
            None => {
                return Err(MainContractError::NotRegistered);
            },
        };
        let j = match self.find(user2) {
            Some(j) => j,
            None => {
                return Err(MainContractError::NotRegistered);
            },
        };
        if !self.users[i].is_active || !self.users[j].is_active {
            return Err(MainContractError::NotRegistered);
        }
        if self.users[i].interests.len() == 0 || self.users[j].interests.len() == 0 {
            return Err(MainContractError::NoVerifiedInterests);
        }
        Ok(compatibility_score(&self.users[i].interests, &self.users[j].interests, &self.popularity))
    }

    /// Records that `user1` and `user2` were matched: each goes to the end of
    /// the other's matches. Only the owner and the operators may report a
    /// match, and both accounts have to be registered.
    pub fn report_match(&mut self, caller: Address, user1: Address, user2: Address) -> (r: Result<
        (),
        MainContractError,
    >)
        ensures
            r == match old(self)@.match_error(caller, user1, user2) {
                Some(e) => Err::<(), _>(e),
                None => Ok(()),
            },
            r.is_ok() ==> final(self)@ == old(self)@.with_match(user1, user2),
            r.is_err() ==> final(self)@ == old(self)@,
    {
        if !self.is_operator(caller) {
            return Err(MainContractError::Unauthorized);
        }
        let i = match self.find(user1) {
            Some(i) => i,
            None => {
                return Err(MainContractError::NotRegistered);
            },
        };
        let j = match self.find(user2) {
            Some(j) => j,
            None => {
                return Err(MainContractError::NotRegistered);
            },
        };
        if !self.users[i].is_active || !self.users[j].is_active {
            return Err(MainContractError::NotRegistered);
        }
        self.users[i].matches.push(user2);
        assert(self@.users =~= old(self)@.with_partner(i as int, user2).users);
        self.users[j].matches.push(user1);
        assert(self@.users =~= old(self)@.with_match(user1, user2).users);
        Ok(())
    }

    /// The interests that `user` has verified, in the order of their
    /// verification.
    pub fn get_user_poaps(&self, user: Address) -> (r: Vec<U256>)
        ensures
            r@ == self@.interests_of(user),
    {
        match self.find(user) {
            Some(i) => self.users[i].interests.clone(),
            None => Vec::new(),
        }
    }

    /// The interest that `user` verified last, or zero where it has verified
    /// none.
    pub fn get_last_verified_poap(&self, user: Address) -> (r: U256)
        ensures
            self@.interests_of(user).len() > 0 ==> r == self@.interests_of(user).last(),
            self@.interests_of(user).len() == 0 ==> r@ == 0,
    {
        match self.find(user) {
            Some(i) => {
                let n = self.users[i].interests.len();
                if n > 0 {
                    self.users[i].interests[n - 1]
                } else {
                    U256::zero()
                }
            },
            None => U256::zero(),
        }
    }

    /// The boost level that goes with `answer`, the answer of the boost ledger
    /// to the question for an account's level (`None` where it gave none): the
    /// level it answered, or zero where no ledger is named or none answered.
    pub fn get_user_boost_level(&self, answer: Option<U256>) -> (r: U256)
        ensures
            r@ == self@.boost_level(answer),
    {
        if self.boost_manager.is_zero() {
            return U256::zero();
        }
        match answer {
            Some(level) => level,
            None => U256::zero(),
        }
    }

    /// What the registry holds of `user`: whether it is registered, when it
    /// was last active, its place, its boost level as
    /// [`MainContract::get_user_boost_level`] gives it for `answer`, the number
    /// of its verified interests, and its matches. For an account without a
    /// profile all of these are empty.
    pub fn get_user_profile(&self, user: Address, answer: Option<U256>) -> (r: (
        bool,
        U256,
        String,
        U256,
        U256,
        Vec<Address>,
    ))
        ensures
            self@.has_profile(user) ==> {
                &&& r.0 == self@.profile_of(user).is_active
                &&& r.1@ == self@.profile_of(user).last_active
                &&& r.2@ == self@.profile_of(user).location
                &&& r.3@ == self@.boost_level(answer)
                &&& r.4@ == self@.profile_of(user).interests.len()
                &&& r.5@ == self@.profile_of(user).matches
            },
            !self@.has_profile(user) ==> {
                &&& !r.0
                &&& r.1@ == 0
                &&& r.2@ == Seq::<char>::empty()
                &&& r.3@ == 0
                &&& r.4@ == 0
                &&& r.5@ == Seq::<Address>::empty()
            },
    {
        match self.find(user) {
            Some(i) => {
                let profile = &self.users[i];
                (
                    profile.is_active,
                    profile.last_active,
                    profile.location.clone(),
                    self.get_user_boost_level(answer),
                    U256::from_u64(profile.interests.len() as u64),
                    profile.matches.clone(),
                )
            },
            None => (
                false,
                U256::zero(),
                String::new(),
                U256::zero(),
                U256::zero(),
                Vec::new(),
            ),
        }
    }

    /// The accounts that have a profile, in the order of registration.
    pub fn registered_users(&self) -> (r: Vec<Address>)
        ensures
            r@.len() == self@.users.len(),
            forall|i: int| 0 <= i < r@.len() ==> r@[i] == self@.users[i].account,
    {
        let mut accounts: Vec<Address> = Vec::new();
        let mut i: usize = 0;
        while i < self.users.len()
            invariant
                i <= self.users@.len(),
                accounts@.len() == i,
                forall|k: int| 0 <= k < i ==> accounts@[k] == self.users@[k].account,
            decreases self.users@.len() - i,
        {
            accounts.push(self.users[i].account);
            i += 1;
        }
        accounts
    }

    /// Sets the fee for a registration. Only the owner may.
    pub fn update_registration_fee(&mut self, caller: Address, new_fee: U256) -> (r: Result<
        RegistrationFeeUpdated,
        MainContractError,
    >)
        ensures
            match r {
                Ok(event) => {
                    &&& caller == old(self)@.owner
                    &&& final(self)@ == old(self)@.with_fee(new_fee@)
                    &&& event.old_fee@ == old(self)@.registration_fee
                    &&& event.new_fee == new_fee
                },
                Err(e) => {
                    &&& caller != old(self)@.owner
                    &&& e == MainContractError::Unauthorized
                    &&& final(self)@ == old(self)@
                },
            },
    {
        if caller != self.owner {
            return Err(MainContractError::Unauthorized);
        }
        let old_fee = self.registration_fee;
        self.registration_fee = new_fee;
        Ok(RegistrationFeeUpdated { old_fee, new_fee })
    }

    /// Takes `amount` off the funds for a transfer to `to` and hands back what
    /// is to be transferred. Only the owner may; the null address and an
    /// amount above the funds are refused, and nothing is changed then.
    ///
    /// The transfer itself is the caller's to make; its outcome goes to
    /// [`MainContract::settle_withdrawal`].
    pub fn withdraw_funds(&mut self, caller: Address, to: Address, amount: U256) -> (r: Result<
        PendingWithdrawal,
        MainContractError,
    >)
        ensures
            match r {
                Ok(pending) => {
                    &&& old(self)@.withdrawal_error(caller, to, amount@) is None
                    &&& final(self)@ == old(self)@.with_funds(
                        (old(self)@.total_funds - amount@) as nat,
                    )
                    &&& pending.to == to
                    &&& pending.amount == amount
                    &&& pending.previous_total@ == old(self)@.total_funds
                },
                Err(e) => {
                    &&& old(self)@.withdrawal_error(caller, to, amount@) == Some(e)
                    &&& final(self)@ == old(self)@
                },
            },
    {
        if caller != self.owner {
            return Err(MainContractError::Unauthorized);
        }
        if to.is_zero() {
            return Err(MainContractError::InvalidAddress);
        }
        let previous_total = self.total_funds;
        if less_than(previous_total, amount) {
            return Err(MainContractError::InsufficientPayment);
        }
        self.total_funds = saturating_sub(previous_total, amount);
        Ok(PendingWithdrawal { to, amount, previous_total })
    }

    /// Ends a withdrawal. Where the transfer went through, the funds stay as
    /// [`MainContract::withdraw_funds`] left them. Where it failed, they go
    /// back to what they were before, and the withdrawal fails.
    pub fn settle_withdrawal(&mut self, pending: PendingWithdrawal, transferred: bool, now: u64)
        -> (r: Result<FundsWithdrawn, MainContractError>)
        ensures
            transferred ==> r == Ok::<_, MainContractError>(
                FundsWithdrawn { to: pending.to, amount: pending.amount, timestamp: now },
            ) && final(self)@ == old(self)@,
            !transferred ==> r == Err::<FundsWithdrawn, _>(MainContractError::WithdrawalFailed)
                && final(self)@ == old(self)@.with_funds(pending.previous_total@),
    {
        if transferred {
            Ok(FundsWithdrawn { to: pending.to, amount: pending.amount, timestamp: now })
        } else {
            self.total_funds = pending.previous_total;
            Err(MainContractError::WithdrawalFailed)
        }
    }
}

impl RegistryView {
    /// The compatibility of the accounts at the places `requester` and `j`.
    pub open spec fn interest_score(self, requester: int, j: int) -> nat {
        compatibility(self.users[requester].interests, self.users[j].interests, self.popularity)
    }

    /// Whether the account at the place `j` is a candidate for the one at the
    /// place `requester` at the time `now`: another account, registered and
    /// active within the last thirty days, with a compatibility above zero.
    pub open spec fn eligible(self, requester: int, j: int, now: nat) -> bool {
        &&& self.users[j].account != self.users[requester].account
        &&& self.users[j].recently_active(now)
        &&& self.interest_score(requester, j) > 0
    }

    /// How many of the first `n` places hold a candidate for the account at
    /// the place `requester`.
    pub open spec fn candidates_before(self, requester: int, n: int, now: nat) -> nat
        decreases n,
    {
        if n <= 0 {
            0
        } else {
            self.candidates_before(requester, n - 1, now) + if self.eligible(
                requester,
                n - 1,
                now,
            ) {
                1nat
            } else {
                0nat
            }
        }
    }

    /// The accounts of the candidates among the first `n` places, in the order
    /// of registration.
    pub open spec fn candidate_accounts(self, requester: int, n: int, now: nat) -> Seq<Address>
        decreases n,
    {
        if n <= 0 {
            Seq::empty()
        } else if self.eligible(requester, n - 1, now) {
            self.candidate_accounts(requester, n - 1, now).push(self.users[n - 1].account)
        } else {
            self.candidate_accounts(requester, n - 1, now)
        }
    }

    /// The boost level of the candidate at the place `j`, where `levels` holds
    /// the answers of the boost ledger candidate by candidate, in the order of
    /// registration; a candidate beyond the end of `levels` has none.
    pub open spec fn level_at(
        self,
        requester: int,
        now: nat,
        levels: Seq<Option<U256>>,
        j: int,
    ) -> nat {
        if self.candidates_before(requester, j, now) < levels.len() {
            self.boost_level(levels[self.candidates_before(requester, j, now) as int])
        } else {
            0
        }
    }

    /// The score that ranks the account at the place `j` as a candidate for
    /// the one at the place `requester`.
    pub open spec fn ranking_score(
        self,
        requester: int,
        j: int,
        now: nat,
        levels: Seq<Option<U256>>,
    ) -> nat {
        blended(
            self.interest_score(requester, j),
            proximity(
                self.users[requester].longitude,
                self.users[requester].latitude,
                self.users[j].longitude,
                self.users[j].latitude,
            ),
            self.level_at(requester, now, levels, j),
        )
    }

    /// Whether `c` is the account at its place with the score that ranks it.
    pub open spec fn describes(
        self,
        requester: int,
        now: nat,
        levels: Seq<Option<U256>>,
        c: Candidate,
    ) -> bool {
        &&& c.place < self.users.len()
        &&& c.account == self.users[c.place as int].account
        &&& c.score@ == self.ranking_score(requester, c.place as int, now, levels)
    }

    /// Whether `list` ranks the candidates among the first `n` places: it is
    /// ranked, it holds candidates only, and it holds each of them.
    pub open spec fn ranks_first(
        self,
        requester: int,
        now: nat,
        levels: Seq<Option<U256>>,
        list: Seq<Candidate>,
        n: int,
    ) -> bool {
        &&& ranked(list)
        &&& forall|k: int|
            0 <= k < list.len() ==> {
                &&& self.describes(requester, now, levels, #[trigger] list[k])
                &&& list[k].place < n
                &&& self.eligible(requester, list[k].place as int, now)
            }
        &&& forall|j: int|
            0 <= j < n && #[trigger] self.eligible(requester, j, now) ==> exists|k: int|
                0 <= k < list.len() && #[trigger] list[k].place == j
    }

    /// Whether `list` is the ranking of all candidates for the account at the
    /// place `requester`: highest score first, and among equal scores the
    /// account that registered first.
    pub open spec fn is_ranking(
        self,
        requester: int,
        now: nat,
        levels: Seq<Option<U256>>,
        list: Seq<Candidate>,
    ) -> bool {
        self.ranks_first(requester, now, levels, list, self.users.len() as int)
    }
}

impl MainContract {
    /// All candidates for `user` at the time `now`, ranked: every other
    /// account that was active within the last thirty days and has a
    /// compatibility above zero with `user`, the highest score first and among
    /// equal scores the account that registered first.
    ///
    /// `levels` holds the answers of the boost ledger to the question for the
    /// level of each account of [`MainContract::boost_queries`], in that
    /// order; `None`, or no entry, where it gave none.
    pub fn rank_candidates(&self, user: Address, now: u64, levels: &Vec<Option<U256>>) -> (r:
        Result<Vec<Candidate>, MainContractError>)
        ensures
            match r {
                Ok(list) => {
                    &&& self@.registered(user)
                    &&& self@.is_ranking(self@.index_of(user), now as nat, levels@, list@)
                },
                Err(e) => e == MainContractError::NotRegistered && !self@.registered(user),
            },
    {
        let requester = match self.find(user) {
            Some(i) => i,
            None => {
                return Err(MainContractError::NotRegistered);
            },
        };
        if !self.users[requester].is_active {
            return Err(MainContractError::NotRegistered);
        }
        let mut list: Vec<Candidate> = Vec::new();
        let mut asked: usize = 0;
        let mut j: usize = 0;
        while j < self.users.len()
            invariant
                j <= self.users@.len(),
                requester < self.users@.len(),
                asked <= j,
                asked == self@.candidates_before(requester as int, j as int, now as nat),
                self@.ranks_first(requester as int, now as nat, levels@, list@, j as int),
            decreases self.users@.len() - j,
        {
            let ghost before = list@;
            let other = &self.users[j];
            let mut entered = false;
            match self.candidate_interest(requester, j, now) {
                None => {},
                Some(interest) => {
                    let location = location_score(
                        self.users[requester].longitude,
                        self.users[requester].latitude,
                        other.longitude,
                        other.latitude,
                    );
                    let answer = if asked < levels.len() {
                        levels[asked]
                    } else {
                        None
                    };
                    asked += 1;
                    let level = self.get_user_boost_level(answer);
                    let score = total_score(interest, location, level);
                    let candidate = Candidate { place: j, account: other.account, score };
                    let p = insert_ranked(&mut list, candidate);
                    entered = true;
                    proof {
                        before.insert_ensures(p as int, candidate);
                        assert(self@.describes(requester as int, now as nat, levels@, candidate));
                        assert(self@.eligible(requester as int, j as int, now as nat));
                        assert forall|k: int| 0 <= k < list@.len() implies {
                            &&& self@.describes(requester as int, now as nat, levels@, #[trigger] list@[k])
                            &&& list@[k].place < j + 1
                            &&& self@.eligible(requester as int, list@[k].place as int, now as nat)
                        } by {
                            if k < p {
                                assert(list@[k] == before[k]);
                            } else if k > p {
                                assert(list@[k] == before[k - 1]);
                            }
                        }
                        assert forall|i: int|
                            0 <= i < j + 1 && #[trigger] self@.eligible(
                                requester as int,
                                i,
                                now as nat,
                            ) implies exists|k: int|
                            0 <= k < list@.len() && #[trigger] list@[k].place == i by {
                            if i == j {
                                assert(list@[p as int].place == i);
                            } else {
                                let k0 = choose|k: int|
                                    0 <= k < before.len() && #[trigger] before[k].place == i;
                                if k0 < p {
                                    assert(list@[k0].place == i);
                                } else {
                                    assert(list@[k0 + 1] == before[k0]);
                                    assert(list@[k0 + 1].place == i);
                                }
                            }
                        }
                    }
                },
            }
            proof {
                if !entered {
                    assert(!self@.eligible(requester as int, j as int, now as nat));
                }
            }
            j += 1;
        }
        Ok(list)
    }

    /// Whether the account at the place `j` is a candidate for the one at the
    /// place `requester` at the time `now`, and if so, their compatibility.
    fn candidate_interest(&self, requester: usize, j: usize, now: u64) -> (r: Option<U256>)
        requires
            requester < self@.users.len(),
            j < self@.users.len(),
        ensures
            r.is_some() == self@.eligible(requester as int, j as int, now as nat),
            r matches Some(interest) ==> interest@ == self@.interest_score(
                requester as int,
                j as int,
            ),
    {
        let other = &self.users[j];
        if other.account == self.users[requester].account || !recently_active(other, now) {
            return None;
        }
        let interest = compatibility_score(
            &self.users[requester].interests,
            &other.interests,
            &self.popularity,
        );
        if interest.is_zero() {
            None
        } else {
            Some(interest)
        }
    }

    /// The accounts whose boost level the ranking of the candidates for `user`
    /// at the time `now` needs: the candidates themselves, in the order of
    /// registration. Only a registered account has candidates.
    pub fn boost_queries(&self, user: Address, now: u64) -> (r: Result<
        Vec<Address>,
        MainContractError,
    >)
        ensures
            match r {
                Ok(accounts) => {
                    &&& self@.registered(user)
                    &&& accounts@ == self@.candidate_accounts(
                        self@.index_of(user),
                        self@.users.len() as int,
                        now as nat,
                    )
                },
                Err(e) => e == MainContractError::NotRegistered && !self@.registered(user),
            },
    {
        let requester = match self.find(user) {
            Some(i) => i,
            None => {
                return Err(MainContractError::NotRegistered);
            },
        };
        if !self.users[requester].is_active {
            return Err(MainContractError::NotRegistered);
        }
        let mut accounts: Vec<Address> = Vec::new();
        let mut j: usize = 0;
        while j < self.users.len()
            invariant
                j <= self.users@.len(),
                requester < self.users@.len(),
                accounts@ == self@.candidate_accounts(requester as int, j as int, now as nat),
            decreases self.users@.len() - j,
        {
            if self.candidate_interest(requester, j, now).is_some() {
                accounts.push(self.users[j].account);
            }
            j += 1;
        }
        Ok(accounts)
    }

    /// The boost ledger to ask for levels, if one is named.
    pub fn ledger_to_ask(&self) -> (r: Option<Address>)
        ensures
            r == if self@.boost_manager == Address::null() {
                None
            } else {
                Some(self@.boost_manager)
            },
    {
        if self.boost_manager.is_zero() {
            None
        } else {
            Some(self.boost_manager)
        }
    }

    /// The service to ask whether `sender` owns an interest, before
    /// [`MainContract::verify_poap`]: only a registered account may have an
    /// interest verified, and only with the service named.
    pub fn verifier_to_ask(&self, sender: Address) -> (r: Result<Address, MainContractError>)
        ensures
            r == if !self@.registered(sender) {
                Err::<Address, _>(MainContractError::NotRegistered)
            } else if self@.poap_verifier == Address::null() {
                Err(MainContractError::CollaboratorNotConfigured)
            } else {
                Ok(self@.poap_verifier)
            },
    {
        if !self.is_user_registered(sender) {
            return Err(MainContractError::NotRegistered);
        }
        if self.poap_verifier.is_zero() {
            return Err(MainContractError::CollaboratorNotConfigured);
        }
        Ok(self.poap_verifier)
    }

    /// The best matches for `user` at the time `now`: the accounts of the
    /// first `max_results` entries of the ranking that
    /// [`MainContract::rank_candidates`] gives, or of all where there are
    /// fewer. Only a registered account has matches.
    pub fn find_matches(
        &self,
        user: Address,
        max_results: u32,
        now: u64,
        levels: &Vec<Option<U256>>,
    ) -> (r: Result<Vec<Address>, MainContractError>)
        ensures
            match r {
                Ok(matches) => {
                    &&& self@.registered(user)
                    &&& exists|list: Seq<Candidate>|
                        {
                            &&& #[trigger] self@.is_ranking(
                                self@.index_of(user),
                                now as nat,
                                levels@,
                                list,
                            )
                            &&& matches@.len() == if max_results < list.len() {
                                max_results as int
                            } else {
                                list.len() as int
                            }
                            &&& forall|k: int|
                                0 <= k < matches@.len() ==> matches@[k] == list[k].account
                        }
                },
                Err(e) => e == MainContractError::NotRegistered && !self@.registered(user),
            },
    {
        let list = match self.rank_candidates(user, now, levels) {
            Ok(list) => list,
            Err(e) => {
                return Err(e);
            },
        };
        let mut matches: Vec<Address> = Vec::new();
        let mut k: usize = 0;
        while k < list.len() && k < max_results as usize
            invariant
                k <= list@.len(),
                k <= max_results,
                matches@.len() == k,
                forall|i: int| 0 <= i < k ==> matches@[i] == list@[i].account,
            decreases list@.len() - k,
        {
            matches.push(list[k].account);
            k += 1;
        }
        Ok(matches)
    }
}

/// A ranking never lists the requester nor an account that was inactive for
/// more than thirty days, and it is sorted: a later entry never has the
/// higher score, and of two entries with the same score the one that
/// registered first comes first.
pub proof fn law_ranking_is_sorted(
    registry: RegistryView,
    requester: int,
    now: nat,
    levels: Seq<Option<U256>>,
    list: Seq<Candidate>,
)
    requires
        0 <= requester < registry.users.len(),
        registry.is_ranking(requester, now, levels, list),
    ensures
        forall|k: int|
            0 <= k < list.len() ==> {
                &&& (#[trigger] list[k]).account != registry.users[requester].account
                &&& registry.users[list[k].place as int].is_active
                &&& now <= registry.users[list[k].place as int].last_active
                    + INACTIVITY_LIMIT as nat
            },
        forall|a: int, b: int|
            0 <= a < b < list.len() ==> {
                &&& registry.ranking_score(requester, list[a].place as int, now, levels)
                    >= registry.ranking_score(requester, list[b].place as int, now, levels)
                &&& registry.ranking_score(requester, list[a].place as int, now, levels)
                    == registry.ranking_score(requester, list[b].place as int, now, levels)
                    ==> list[a].place < list[b].place
            },
{
    assert forall|a: int, b: int| 0 <= a < b < list.len() implies {
        &&& registry.ranking_score(requester, list[a].place as int, now, levels)
            >= registry.ranking_score(requester, list[b].place as int, now, levels)
        &&& registry.ranking_score(requester, list[a].place as int, now, levels)
            == registry.ranking_score(requester, list[b].place as int, now, levels) ==> list[a].place
            < list[b].place
    } by {
        assert(precedes(list[a], list[b]));
        assert(registry.describes(requester, now, levels, list[a]));
        assert(registry.describes(requester, now, levels, list[b]));
    }
}

/// There is one ranking only: two lists that both rank the candidates for an
/// account are the same list. So the matches of an account are settled by the
/// registry, the time and the boost levels.
pub proof fn law_ranking_is_unique(
    registry: RegistryView,
    requester: int,
    now: nat,
    levels: Seq<Option<U256>>,
    first: Seq<Candidate>,
    second: Seq<Candidate>,
)
    requires
        registry.is_ranking(requester, now, levels, first),
        registry.is_ranking(requester, now, levels, second),
    ensures
        first == second,
{
    lemma_ranking_holds_each(registry, requester, now, levels, first, second);
    lemma_ranking_holds_each(registry, requester, now, levels, second, first);
    lemma_ranked_lists_agree(first, second);
}

/// Of two rankings, the second holds every entry of the first.
proof fn lemma_ranking_holds_each(
    registry: RegistryView,
    requester: int,
    now: nat,
    levels: Seq<Option<U256>>,
    first: Seq<Candidate>,
    second: Seq<Candidate>,
)
    requires
        registry.is_ranking(requester, now, levels, first),
        registry.is_ranking(requester, now, levels, second),
    ensures
        forall|i: int| 0 <= i < first.len() ==> second.contains(#[trigger] first[i]),
{
    assert forall|i: int| 0 <= i < first.len() implies second.contains(#[trigger] first[i]) by {
        let c = first[i];
        assert(registry.describes(requester, now, levels, c));
        assert(registry.eligible(requester, c.place as int, now));
        let k = choose|k: int| 0 <= k < second.len() && #[trigger] second[k].place == c.place;
        assert(registry.describes(requester, now, levels, second[k]));
        lemma_view_injective(second[k].score, c.score);
        assert(second[k] == c);
    }
}

/// An account that stands at some place has a profile.
pub proof fn lemma_account_has_profile(registry: RegistryView, account: Address, i: int)
    requires
        0 <= i < registry.users.len(),
        registry.users[i].account == account,
    ensures
        registry.has_profile(account),
        registry.valid() ==> registry.index_of(account) == i,
    decreases i,
{
    if exists|j: int| 0 <= j < i && registry.users[j].account == account {
        let j = choose|j: int| 0 <= j < i && registry.users[j].account == account;
        lemma_account_has_profile(registry, account, j);
    } else {
        assert(registry.is_first(account, i));
    }
}

/// A new registry is valid, and every operation that is accepted keeps a
/// valid registry valid: an account never gets a second profile, and the
/// owner never becomes an operator.
pub proof fn law_registry_stays_valid(
    registry: RegistryView,
    caller: Address,
    sender: Address,
    other: Address,
    payment: nat,
    now: nat,
    interest: U256,
    location: Seq<char>,
    longitude: nat,
    latitude: nat,
)
    requires
        registry.valid(),
    ensures
        RegistryView::empty().valid(),
        registry.initialized(caller).valid(),
        registry.with_operator(other).valid(),
        registry.without_operator(other).valid(),
        registry.with_contracts(sender, other).valid(),
        registry.registration_error(sender, payment) is None ==> registry.with_registration(
            sender,
            payment,
            now,
        ).valid(),
        registry.registered(sender) ==> registry.with_location(
            sender,
            location,
            longitude,
            latitude,
            now,
        ).valid(),
        registry.registered(sender) ==> registry.with_interest(sender, interest, now).valid(),
        registry.registered(sender) && registry.registered(other) ==> registry.with_match(
            sender,
            other,
        ).valid(),
{
    if registry.registration_error(sender, payment) is None {
        let after = registry.with_registration(sender, payment, now);
        if registry.has_profile(sender) {
            assert(registry.is_first(sender, registry.index_of(sender)));
        } else {
            assert forall|i: int| 0 <= i < registry.users.len() implies registry.users[i].account
                != sender by {
                if registry.users[i].account == sender {
                    lemma_account_has_profile(registry, sender, i);
                }
            }
        }
        assert(after.valid());
    }
    if registry.registered(sender) {
        assert(registry.is_first(sender, registry.index_of(sender)));
        if registry.registered(other) {
            assert(registry.is_first(other, registry.index_of(other)));
        }
    }
}

/// The popularity of an interest counts its verifications: each one raises
/// it by one and leaves every other interest as it was.
pub proof fn law_popularity_counts_verifications(
    registry: RegistryView,
    sender: Address,
    interest: U256,
    other: U256,
    now: nat,
)
    ensures
        count_of(registry.with_interest(sender, interest, now).popularity, interest) == count_of(
            registry.popularity,
            interest,
        ) + 1,
        other != interest ==> count_of(
            registry.with_interest(sender, interest, now).popularity,
            other,
        ) == count_of(registry.popularity, other),
{
}

/// The levels follow the questions: among the first `n` places there is one
/// account to ask for per candidate, and the account of a candidate stands in
/// that list at the very place from which its level is read.
pub proof fn law_levels_follow_queries(
    registry: RegistryView,
    requester: int,
    n: int,
    j: int,
    now: nat,
)
    requires
        0 <= j < n <= registry.users.len(),
    ensures
        registry.candidate_accounts(requester, n, now).len() == registry.candidates_before(
            requester,
            n,
            now,
        ),
        registry.eligible(requester, j, now) ==> {
            &&& registry.candidates_before(requester, j, now) < registry.candidates_before(
                requester,
                n,
                now,
            )
            &&& registry.candidate_accounts(requester, n, now)[registry.candidates_before(
                requester,
                j,
                now,
            ) as int] == registry.users[j].account
        },
    decreases n,
{
    lemma_one_account_per_candidate(registry, requester, n, now);
    lemma_one_account_per_candidate(registry, requester, n - 1, now);
    let before = registry.candidate_accounts(requester, n - 1, now);
    let place = registry.candidates_before(requester, j, now) as int;
    if registry.eligible(requester, j, now) {
        if j < n - 1 {
            law_levels_follow_queries(registry, requester, n - 1, j, now);
            assert(place < before.len());
            if registry.eligible(requester, n - 1, now) {
                assert(before.push(registry.users[n - 1].account)[place] == before[place]);
            }
        } else {
            assert(place == before.len());
            assert(before.push(registry.users[j].account)[place] == registry.users[j].account);
        }
    }
}

/// Among the first `n` places there is one account to ask for per candidate.
proof fn lemma_one_account_per_candidate(
    registry: RegistryView,
    requester: int,
    n: int,
    now: nat,
)
    ensures
        registry.candidate_accounts(requester, n, now).len() == registry.candidates_before(
            requester,
            n,
            now,
        ),
    decreases n,
{
    if n > 0 {
        lemma_one_account_per_candidate(registry, requester, n - 1, now);
    }
}

} // verus!
