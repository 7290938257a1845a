//! The boost ledger: time-boxed boosts bought per account, the funds they
//! bring in, and who may look at or change what.
//!
//! The ledger is a plain value. The caller, the payment and the time of each
//! operation are arguments; what has to be told to the outside world comes
//! back as the result.

use vstd::prelude::*;
use crate::access::{members, OperatorSet};
use crate::address::Address;
use crate::table::{map_of, Table};
use crate::uint::{checked_add, checked_mul, less_than, lemma_view_bound, modulus, saturating_sub, U256};

verus! {

/// Seconds in one day.
pub const SECONDS_PER_DAY: u64 = 86400;

/// The price of one day of boost in a new ledger.
pub const DEFAULT_PRICE_PER_DAY: u64 = 10_000_000_000_000_000;

/// Why an operation on the ledger was refused.
#[derive(Clone, Copy, Debug, PartialEq, Eq, Structural)]
pub enum BoostManagerError {
    /// The caller may not do this.
    Unauthorized,
    /// The payment is below the price, or more is withdrawn than is held.
    InsufficientPayment,
    /// The transfer of withdrawn funds did not go through.
    WithdrawalFailed,
    /// The null address was given where an account is needed.
    InvalidAddress,
    /// The number of days is zero, or the days are paid for and so many that
    /// the boost would end after the last moment a `U256` can hold.
    InvalidDuration,
    /// The payment is more than the ledger can add to its funds.
    InvalidParameters,
}

/// The boost of one account.
#[derive(Clone, Copy, Debug, PartialEq, Eq, Structural)]
pub struct Boost {
    /// What was paid for it.
    pub amount: U256,
    /// When it was bought, in seconds.
    pub start_time: U256,
    /// The last second at which it counts.
    pub end_time: U256,
    /// Whether it is switched on. It stays on past `end_time` until a status
    /// check switches it off.
    pub is_active: bool,
}

/// A boost as numbers.
pub struct BoostView {
    pub amount: nat,
    pub start_time: nat,
    pub end_time: nat,
    pub is_active: bool,
}

impl View for Boost {
    type V = BoostView;

    open spec fn view(&self) -> BoostView {
        BoostView {
            amount: self.amount@,
            start_time: self.start_time@,
            end_time: self.end_time@,
            is_active: self.is_active,
        }
    }
}

/// A boost was bought.
#[derive(Clone, Copy, Debug, PartialEq, Eq, Structural)]
pub struct BoostPurchased {
    pub user: Address,
    pub amount: U256,
    /// The length of the boost in seconds.
    pub duration: U256,
    pub timestamp: u64,
}

/// A status check found a boost past its end and switched it off.
#[derive(Clone, Copy, Debug, PartialEq, Eq, Structural)]
pub struct BoostExpired {
    pub user: Address,
    pub timestamp: u64,
}

/// Funds left the ledger.
#[derive(Clone, Copy, Debug, PartialEq, Eq, Structural)]
pub struct FundsWithdrawn {
    pub to: Address,
    pub amount: U256,
    pub timestamp: u64,
}

/// The price of a day of boost was changed.
#[derive(Clone, Copy, Debug, PartialEq, Eq, Structural)]
pub struct MinBoostPriceUpdated {
    pub old_price: U256,
    pub new_price: U256,
}

/// A withdrawal that the ledger has already taken off its funds and that
/// waits for the transfer to be made.
#[derive(Clone, Copy, Debug, PartialEq, Eq, Structural)]
pub struct PendingWithdrawal {
    pub to: Address,
    pub amount: U256,
    /// The funds before the withdrawal, to go back to if the transfer fails.
    pub previous_total: U256,
}

/// The ledger as mathematics: what every contract of [`BoostManager`] speaks of.
pub struct LedgerView {
    /// The boost of each account that ever bought one.
    pub boosts: Map<Address, BoostView>,
    /// The price of one day of boost.
    pub min_boost_price: nat,
    /// The owner; the null address while there is none.
    pub owner: Address,
    /// The coordinating service; the null address while there is none.
    pub main_contract: Address,
    /// The funds collected and not withdrawn.
    pub total_funds: nat,
    /// The accounts that were made operators.
    pub operators: Set<Address>,
}

impl LedgerView {
    /// A ledger that nobody has touched.
    pub open spec fn empty() -> LedgerView {
        LedgerView {
            boosts: Map::empty(),
            min_boost_price: 0,
            owner: Address::null(),
            main_contract: Address::null(),
            total_funds: 0,
            operators: Set::empty(),
        }
    }

    /// What holds of every ledger that the operations can lead to: the numbers
    /// fit in 256 bits, a boost that is switched on ends after it starts, and
    /// the owner is not among the operators.
    pub open spec fn valid(self) -> bool {
        &&& self.min_boost_price < modulus()
        &&& self.total_funds < modulus()
        &&& !self.operators.contains(self.owner)
        &&& forall|a: Address| #[trigger]
            self.boosts.contains_key(a) ==> {
                &&& self.boosts[a].amount < modulus()
                &&& self.boosts[a].start_time < modulus()
                &&& self.boosts[a].end_time < modulus()
                &&& self.boosts[a].is_active ==> self.boosts[a].end_time > self.boosts[a].start_time
            }
    }

    /// Whether `caller` may check the boost of `account`: the owner, the
    /// coordinating service, an operator, and the account itself may.
    pub open spec fn authorized(self, caller: Address, account: Address) -> bool {
        caller == self.owner || caller == self.main_contract || caller == account
            || self.operators.contains(caller)
    }

    /// The ledger after `caller` has taken ownership of it.
    pub open spec fn initialized(self, caller: Address) -> LedgerView {
        LedgerView {
            owner: caller,
            min_boost_price: DEFAULT_PRICE_PER_DAY as nat,
            total_funds: 0,
            operators: self.operators.remove(caller),
            ..self
        }
    }

    /// The ledger after `account` was made an operator. The owner holds every
    /// right already and is not entered.
    pub open spec fn with_operator(self, account: Address) -> LedgerView {
        if account == self.owner {
            self
        } else {
            LedgerView { operators: self.operators.insert(account), ..self }
        }
    }

    /// The ledger after `account` ceased to be an operator.
    pub open spec fn without_operator(self, account: Address) -> LedgerView {
        LedgerView { operators: self.operators.remove(account), ..self }
    }

    /// The ledger after `service` became the coordinating service, which makes
    /// it an operator too.
    pub open spec fn with_main_contract(self, service: Address) -> LedgerView {
        LedgerView { main_contract: service, ..self.with_operator(service) }
    }

    /// Whether `account` has a boost that is switched on.
    pub open spec fn switched_on(self, account: Address) -> bool {
        self.boosts.contains_key(account) && self.boosts[account].is_active
    }

    /// Whether the boost of `account` counts at the time `now`.
    pub open spec fn status(self, account: Address, now: nat) -> bool {
        self.switched_on(account) && now <= self.boosts[account].end_time
    }

    /// Whether a status check at the time `now` finds the boost of `account`
    /// past its end and still switched on.
    pub open spec fn expires(self, account: Address, now: nat) -> bool {
        self.switched_on(account) && now > self.boosts[account].end_time
    }

    /// The ledger after a status check of `account` at the time `now`.
    pub open spec fn checked(self, account: Address, now: nat) -> LedgerView {
        if self.expires(account, now) {
            LedgerView {
                boosts: self.boosts.insert(
                    account,
                    BoostView { is_active: false, ..self.boosts[account] },
                ),
                ..self
            }
        } else {
            self
        }
    }

    /// The level of `account` at the time `now`: what it paid for its boost
    /// while the boost counts, else zero.
    pub open spec fn level(self, account: Address, now: nat) -> nat {
        if self.status(account, now) {
            self.boosts[account].amount
        } else {
            0
        }
    }

    /// The seconds for which the boost of `account` still counts after `now`.
    pub open spec fn remaining(self, account: Address, now: nat) -> nat {
        if self.switched_on(account) && now < self.boosts[account].end_time {
            (self.boosts[account].end_time - now) as nat
        } else {
            0
        }
    }

    /// Why a purchase of `days` days for `payment` at the time `now` is
    /// refused, if it is.
    pub open spec fn purchase_error(self, days: nat, payment: nat, now: nat) -> Option<
        BoostManagerError,
    > {
        if days == 0 {
            Some(BoostManagerError::InvalidDuration)
        } else if payment < self.min_boost_price * days {
            Some(BoostManagerError::InsufficientPayment)
        } else if now + days * (SECONDS_PER_DAY as nat) >= modulus() {
            Some(BoostManagerError::InvalidDuration)
        } else if self.total_funds + payment >= modulus() {
            Some(BoostManagerError::InvalidParameters)
        } else {
            None
        }
    }

    /// The ledger after `account` bought `days` days for `payment` at the time
    /// `now`: the new boost replaces whatever the account had.
    pub open spec fn purchased(self, account: Address, days: nat, payment: nat, now: nat)
        -> LedgerView {
        LedgerView {
            boosts: self.boosts.insert(
                account,
                BoostView {
                    amount: payment,
                    start_time: now,
                    end_time: now + days * (SECONDS_PER_DAY as nat),
                    is_active: true,
                },
            ),
            total_funds: self.total_funds + payment,
            ..self
        }
    }

    /// Why a withdrawal of `amount` to `to` by `caller` is refused, if it is.
    pub open spec fn withdrawal_error(self, caller: Address, to: Address, amount: nat) -> Option<
        BoostManagerError,
    > {
        if caller != self.owner {
            Some(BoostManagerError::Unauthorized)
        } else if to == Address::null() {
            Some(BoostManagerError::InvalidAddress)
        } else if amount > self.total_funds {
            Some(BoostManagerError::InsufficientPayment)
        } else {
            None
        }
    }

    /// The ledger with its funds set to `total`.
    pub open spec fn with_funds(self, total: nat) -> LedgerView {
        LedgerView { total_funds: total, ..self }
    }

    /// The ledger with the price of a day set to `price`.
    pub open spec fn with_price(self, price: nat) -> LedgerView {
        LedgerView { min_boost_price: price, ..self }
    }
}

/// The boosts as numbers, account by account.
pub open spec fn boost_views(boosts: Map<Address, Boost>) -> Map<Address, BoostView> {
    boosts.map_values(|b: Boost| b@)
}

/// All that a ledger holds, as plain values: what is written down to keep a
/// ledger, and read to have it back.
pub struct LedgerParts {
    /// The boosts, account by account; of two entries of one account the
    /// later counts.
    pub boosts: Vec<(Address, Boost)>,
    pub min_boost_price: U256,
    pub owner: Address,
    pub main_contract: Address,
    pub total_funds: U256,
    /// Who was made an operator (`true`) and who ceased to be one (`false`);
    /// of two entries of one account the later counts.
    pub operators: Vec<(Address, bool)>,
}

impl View for LedgerParts {
    type V = LedgerView;

    open spec fn view(&self) -> LedgerView {
        LedgerView {
            boosts: boost_views(map_of(self.boosts@)),
            min_boost_price: self.min_boost_price@,
            owner: self.owner,
            main_contract: self.main_contract,
            total_funds: self.total_funds@,
            operators: members(self.operators@),
        }
    }
}

/// The boost ledger with its treasury.
pub struct BoostManager {
    boosts: Table<Address, Boost>,
    min_boost_price: U256,
    owner: Address,
    main_contract: Address,
    total_funds: U256,
    operators: OperatorSet,
}

impl View for BoostManager {
    type V = LedgerView;

    closed spec fn view(&self) -> LedgerView {
        LedgerView {
            boosts: boost_views(self.boosts@),
            min_boost_price: self.min_boost_price@,
            owner: self.owner,
            main_contract: self.main_contract,
            total_funds: self.total_funds@,
            operators: self.operators@,
        }
    }
}

impl BoostManager {
    /// A ledger that nobody has touched: no owner, no boosts, no funds.
    pub fn new() -> (r: BoostManager)
        ensures
            r@ == LedgerView::empty(),
    {
        let r = BoostManager {
            boosts: Table::new(),
            min_boost_price: U256::zero(),
            owner: Address::zero(),
            main_contract: Address::zero(),
            total_funds: U256::zero(),
            operators: OperatorSet::new(),
        };
        assert(r@.boosts =~= Map::empty());
        r
    }

    /// The ledger that `parts` holds.
    pub fn from_parts(parts: LedgerParts) -> (r: BoostManager)
        ensures
            r@ == parts@,
    {
        BoostManager {
            boosts: Table::from_entries(parts.boosts),
            min_boost_price: parts.min_boost_price,
            owner: parts.owner,
            main_contract: parts.main_contract,
            total_funds: parts.total_funds,
            operators: OperatorSet::from_entries(parts.operators),
        }
    }

    /// All that the ledger holds, as plain values.
    pub fn into_parts(self) -> (parts: LedgerParts)
        ensures
            parts@ == self@,
    {
        LedgerParts {
            boosts: self.boosts.into_entries(),
            min_boost_price: self.min_boost_price,
            owner: self.owner,
            main_contract: self.main_contract,
            total_funds: self.total_funds,
            operators: self.operators.into_entries(),
        }
    }

    /// Makes `caller` the owner. This works once: with an owner in place it is
    /// refused. The price goes to its default and the funds to zero.
    pub fn init(&mut self, caller: Address) -> (r: Result<(), BoostManagerError>)
        ensures
            old(self)@.owner == Address::null() ==> r.is_ok() && final(self)@ == old(self)@.initialized(
                caller,
            ),
            old(self)@.owner != Address::null() ==> r == Err::<(), _>(
                BoostManagerError::Unauthorized,
            ) && final(self)@ == old(self)@,
    {
        if !self.owner.is_zero() {
            return Err(BoostManagerError::Unauthorized);
        }
        self.owner = caller;
        self.operators.revoke(caller);
        self.min_boost_price = U256::from_u64(DEFAULT_PRICE_PER_DAY);
        self.total_funds = U256::zero();
        Ok(())
    }

    /// Enters `account` among the operators, unless it is the owner.
    fn enter_operator(&mut self, account: Address)
        ensures
            final(self)@ == old(self)@.with_operator(account),
    {
        if account != self.owner {
            self.operators.grant(account);
        }
    }

    /// Names the coordinating service and makes it an operator. Only the owner
    /// may; the null address is refused.
    pub fn set_main_contract(&mut self, caller: Address, main_contract: Address) -> (r: Result<
        (),
        BoostManagerError,
    >)
        ensures
            r == if caller != old(self)@.owner {
                Err::<(), _>(BoostManagerError::Unauthorized)
            } else if main_contract == Address::null() {
                Err(BoostManagerError::InvalidAddress)
            } else {
                Ok(())
            },
            r.is_ok() ==> final(self)@ == old(self)@.with_main_contract(main_contract),
            r.is_err() ==> final(self)@ == old(self)@,
    {
        if caller != self.owner {
            return Err(BoostManagerError::Unauthorized);
        }
        if main_contract.is_zero() {
            return Err(BoostManagerError::InvalidAddress);
        }
        self.enter_operator(main_contract);
        self.main_contract = main_contract;
        Ok(())
    }

    /// Makes `operator` an operator. Only the owner may; the null address is
    /// refused.
    pub fn add_operator(&mut self, caller: Address, operator: Address) -> (r: Result<
        (),
        BoostManagerError,
    >)
        ensures
            r == if caller != old(self)@.owner {
                Err::<(), _>(BoostManagerError::Unauthorized)
            } else if operator == Address::null() {
                Err(BoostManagerError::InvalidAddress)
            } else {
                Ok(())
            },
            r.is_ok() ==> final(self)@ == old(self)@.with_operator(operator),
            r.is_err() ==> final(self)@ == old(self)@,
    {
        if caller != self.owner {
            return Err(BoostManagerError::Unauthorized);
        }
        if operator.is_zero() {
            return Err(BoostManagerError::InvalidAddress);
        }
        self.enter_operator(operator);
        Ok(())
    }

    /// Takes `operator` out of the operators. Only the owner may.
    pub fn remove_operator(&mut self, caller: Address, operator: Address) -> (r: Result<
        (),
        BoostManagerError,
    >)
        ensures
            r == if caller != old(self)@.owner {
                Err::<(), _>(BoostManagerError::Unauthorized)
            } else {
                Ok(())
            },
            r.is_ok() ==> final(self)@ == old(self)@.without_operator(operator),
            r.is_err() ==> final(self)@ == old(self)@,
    {
        if caller != self.owner {
            return Err(BoostManagerError::Unauthorized);
        }
        self.operators.revoke(operator);
        Ok(())
    }

    /// Whether `caller` may check the boost of `user`.
    pub fn is_authorized(&self, caller: Address, user: Address) -> (r: bool)
        ensures
            r == self@.authorized(caller, user),
    {
        caller == self.owner || caller == self.main_contract || caller == user
            || self.operators.contains(caller)
    }

    /// The price of one day of boost.
    pub fn get_min_boost_price(&self) -> (r: U256)
        ensures
            r@ == self@.min_boost_price,
    {
        self.min_boost_price
    }

    /// The funds collected and not withdrawn.
    pub fn get_total_funds(&self) -> (r: U256)
        ensures
            r@ == self@.total_funds,
    {
        self.total_funds
    }

    /// Buys `days` days of boost for `sender`, who pays `payment` at the time
    /// `now`. The new boost replaces the one the account had, and the payment
    /// goes to the funds. A refused purchase changes nothing.
    pub fn purchase_boost(&mut self, sender: Address, days: U256, payment: U256, now: u64) -> (r:
        Result<BoostPurchased, BoostManagerError>)
        ensures
            match r {
                Ok(event) => {
                    &&& old(self)@.purchase_error(days@, payment@, now as nat) is None
                    &&& final(self)@ == old(self)@.purchased(sender, days@, payment@, now as nat)
                    &&& event.user == sender
                    &&& event.amount == payment
                    &&& event.duration@ == days@ * (SECONDS_PER_DAY as nat)
                    &&& event.timestamp == now
                },
                Err(e) => {
                    &&& old(self)@.purchase_error(days@, payment@, now as nat) == Some(e)
                    &&& final(self)@ == old(self)@
                },
            },
    {
        proof {
            lemma_view_bound(payment);
        }
        if days.is_zero() {
            return Err(BoostManagerError::InvalidDuration);
        }
        let min_price = match checked_mul(self.min_boost_price, days) {
            Some(p) => p,
            None => {
                return Err(BoostManagerError::InsufficientPayment);
            },
        };
        if less_than(payment, min_price) {
            return Err(BoostManagerError::InsufficientPayment);
        }
        let start = U256::from_u64(now);
        let duration = match checked_mul(days, U256::from_u64(SECONDS_PER_DAY)) {
            Some(d) => d,
            None => {
                return Err(BoostManagerError::InvalidDuration);
            },
        };
        let end = match checked_add(start, duration) {
            Some(e) => e,
            None => {
                return Err(BoostManagerError::InvalidDuration);
            },
        };
        let total = match checked_add(self.total_funds, payment) {
            Some(t) => t,
            None => {
                return Err(BoostManagerError::InvalidParameters);
            },
        };
        let boost = Boost { amount: payment, start_time: start, end_time: end, is_active: true };
        self.boosts.insert(sender, boost);
        self.total_funds = total;
        assert(self@.boosts =~= old(self)@.boosts.insert(sender, boost@));
        Ok(BoostPurchased { user: sender, amount: payment, duration, timestamp: now })
    }

    /// Looks at the boost of `user` at the time `now` and says whether it
    /// counts. A boost found past its end is switched off, and the result then
    /// carries the notice of that; a later check finds it off and carries none.
    /// Only the owner, the coordinating service, an operator and `user` itself
    /// may ask.
    pub fn check_boost_status(&mut self, caller: Address, user: Address, now: u64) -> (r: Result<
        (bool, Option<BoostExpired>),
        BoostManagerError,
    >)
        ensures
            match r {
                Ok((active, notice)) => {
                    &&& old(self)@.authorized(caller, user)
                    &&& active == old(self)@.status(user, now as nat)
                    &&& notice == if old(self)@.expires(user, now as nat) {
                        Some(BoostExpired { user, timestamp: now })
                    } else {
                        None
                    }
                    &&& final(self)@ == old(self)@.checked(user, now as nat)
                },
                Err(e) => {
                    &&& !old(self)@.authorized(caller, user)
                    &&& e == BoostManagerError::Unauthorized
                    &&& final(self)@ == old(self)@
                },
            },
    {
        if !self.is_authorized(caller, user) {
            return Err(BoostManagerError::Unauthorized);
        }
        let boost = match self.boosts.get(&user) {
            Some(b) => b,
            None => {
                return Ok((false, None));
            },
        };
        if !boost.is_active {
            return Ok((false, None));
        }
        if less_than(boost.end_time, U256::from_u64(now)) {
            let off = Boost { is_active: false, ..boost };
            self.boosts.insert(user, off);
            assert(self@.boosts =~= old(self)@.boosts.insert(user, off@));
            return Ok((false, Some(BoostExpired { user, timestamp: now })));
        }
        Ok((true, None))
    }

    /// The level of `user` at the time `now`: what it paid for its boost while
    /// the boost counts, else zero. Nothing is changed: a boost past its end
    /// stays switched on until a status check.
    pub fn get_boost_level(&self, user: Address, now: u64) -> (r: U256)
        ensures
            r@ == self@.level(user, now as nat),
    {
        match self.boosts.get(&user) {
            Some(boost) => {
                if !boost.is_active || less_than(boost.end_time, U256::from_u64(now)) {
                    U256::zero()
                } else {
                    boost.amount
                }
            },
            None => U256::zero(),
        }
    }

    /// The seconds for which the boost of `user` still counts after `now`.
    pub fn get_remaining_boost_time(&self, user: Address, now: u64) -> (r: U256)
        ensures
            r@ == self@.remaining(user, now as nat),
    {
        match self.boosts.get(&user) {
            Some(boost) => {
                if !boost.is_active {
                    U256::zero()
                } else {
                    saturating_sub(boost.end_time, U256::from_u64(now))
                }
            },
            None => U256::zero(),
        }
    }

    /// Takes `amount` off the funds for a transfer to `to` and hands back what
    /// is to be transferred. Only the owner may; the null address and an
    /// amount above the funds are refused, and nothing is changed then.
    ///
    /// The transfer itself is the caller's to make; its outcome goes to
    /// [`BoostManager::settle_withdrawal`].
    pub fn withdraw_funds(&mut self, caller: Address, to: Address, amount: U256) -> (r: Result<
        PendingWithdrawal,
        BoostManagerError,
    >)
        ensures
            match r {
                Ok(pending) => {
                    &&& old(self)@.withdrawal_error(caller, to, amount@) is None
                    &&& final(self)@ == old(self)@.with_funds(
                        (old(self)@.total_funds - amount@) as nat,
                    )
                    &&& pending.to == to
                    &&& pending.amount == amount
                    &&& pending.previous_total@ == old(self)@.total_funds
                },
                Err(e) => {
                    &&& old(self)@.withdrawal_error(caller, to, amount@) == Some(e)
                    &&& final(self)@ == old(self)@
                },
            },
    {
        if caller != self.owner {
            return Err(BoostManagerError::Unauthorized);
        }
        if to.is_zero() {
            return Err(BoostManagerError::InvalidAddress);
        }
        let previous_total = self.total_funds;
        if less_than(previous_total, amount) {
            return Err(BoostManagerError::InsufficientPayment);
        }
        self.total_funds = saturating_sub(previous_total, amount);
        Ok(PendingWithdrawal { to, amount, previous_total })
    }

    /// Ends a withdrawal. Where the transfer went through, the funds stay as
    /// [`BoostManager::withdraw_funds`] left them. Where it failed, they go
    /// back to what they were before, and the withdrawal fails.
    pub fn settle_withdrawal(&mut self, pending: PendingWithdrawal, transferred: bool, now: u64)
        -> (r: Result<FundsWithdrawn, BoostManagerError>)
        ensures
            transferred ==> r == Ok::<_, BoostManagerError>(
                FundsWithdrawn { to: pending.to, amount: pending.amount, timestamp: now },
            ) && final(self)@ == old(self)@,
            !transferred ==> r == Err::<FundsWithdrawn, _>(BoostManagerError::WithdrawalFailed)
                && final(self)@ == old(self)@.with_funds(pending.previous_total@),
    {
        if transferred {
            Ok(FundsWithdrawn { to: pending.to, amount: pending.amount, timestamp: now })
        } else {
            self.total_funds = pending.previous_total;
            Err(BoostManagerError::WithdrawalFailed)
        }
    }

    /// Sets the price of one day of boost. Only the owner may. Boosts bought
    /// before keep what they were bought for.
    pub fn update_min_boost_price(&mut self, caller: Address, new_price: U256) -> (r: Result<
        MinBoostPriceUpdated,
        BoostManagerError,
    >)
        ensures
            match r {
                Ok(event) => {
                    &&& caller == old(self)@.owner
                    &&& final(self)@ == old(self)@.with_price(new_price@)
                    &&& event.old_price@ == old(self)@.min_boost_price
                    &&& event.new_price == new_price
                },
                Err(e) => {
                    &&& caller != old(self)@.owner
                    &&& e == BoostManagerError::Unauthorized
                    &&& final(self)@ == old(self)@
                },
            },
    {
        if caller != self.owner {
            return Err(BoostManagerError::Unauthorized);
        }
        let old_price = self.min_boost_price;
        self.min_boost_price = new_price;
        Ok(MinBoostPriceUpdated { old_price, new_price })
    }
}

/// A purchase that is paid for gives the account its payment as level at
/// once, with the whole duration still to run: for `days > 0` and a payment of
/// at least the price of that many days, where the end of the boost and the
/// new funds fit in 256 bits, the purchase is accepted, the level at the time
/// of purchase is the payment, and the remaining time is `days * 86400`.
pub proof fn law_purchase_sets_level(
    ledger: LedgerView,
    account: Address,
    days: nat,
    payment: nat,
    now: nat,
)
    requires
        days > 0,
        payment >= ledger.min_boost_price * days,
        now + days * (SECONDS_PER_DAY as nat) < modulus(),
        ledger.total_funds + payment < modulus(),
    ensures
        ledger.purchase_error(days, payment, now) is None,
        ledger.purchased(account, days, payment, now).level(account, now) == payment,
        ledger.purchased(account, days, payment, now).remaining(account, now) == days * (
        SECONDS_PER_DAY as nat),
        ledger.purchased(account, days, payment, now).total_funds == ledger.total_funds + payment,
{
}

/// The level lasts as long as the boost: from the purchase to the end of the
/// last paid day it is the payment, whether or not the status was checked in
/// between; after a status check past the end it is zero, at any time.
pub proof fn law_level_lasts_to_end(
    ledger: LedgerView,
    account: Address,
    days: nat,
    payment: nat,
    now: nat,
    later: nat,
    any: nat,
)
    requires
        days > 0,
    ensures
        ({
            let bought = ledger.purchased(account, days, payment, now);
            let end = now + days * (SECONDS_PER_DAY as nat);
            &&& now <= later <= end ==> bought.level(account, later) == payment
                && bought.checked(account, later) == bought
            &&& later > end ==> bought.level(account, later) == 0
                && bought.checked(account, later).level(account, any) == 0
        }),
{
}

/// A status check is idempotent once the boost is past its end: after the
/// check that switched the boost off, a further check at any time reports the
/// boost as off, carries no notice and changes nothing.
pub proof fn law_status_check_idempotent(
    ledger: LedgerView,
    account: Address,
    first: nat,
    second: nat,
)
    requires
        ledger.expires(account, first),
    ensures
        !ledger.checked(account, first).status(account, second),
        !ledger.checked(account, first).expires(account, second),
        ledger.checked(account, first).checked(account, second) == ledger.checked(account, first),
{
}

/// A withdrawal of no more than the funds leaves the funds less the amount
/// where the transfer goes through, and the funds as they were where it fails.
pub proof fn law_withdrawal_settles(ledger: LedgerView, amount: nat)
    requires
        amount <= ledger.total_funds,
    ensures
        ({
            let debited = ledger.with_funds((ledger.total_funds - amount) as nat);
            &&& debited.total_funds == ledger.total_funds - amount
            &&& debited.with_funds(ledger.total_funds) == ledger
        }),
{
}

/// A new ledger is valid, and an accepted purchase and a status check keep a
/// valid ledger valid: a boost that is switched on ends after it starts.
pub proof fn law_boosts_stay_valid(
    ledger: LedgerView,
    account: Address,
    days: nat,
    payment: nat,
    now: nat,
)
    requires
        ledger.valid(),
    ensures
        LedgerView::empty().valid(),
        ledger.purchase_error(days, payment, now) is None ==> ledger.purchased(
            account,
            days,
            payment,
            now,
        ).valid(),
        ledger.checked(account, now).valid(),
{
    if ledger.purchase_error(days, payment, now) is None {
        let bought = ledger.purchased(account, days, payment, now);
        assert(payment < modulus());
        assert forall|a: Address| #[trigger] bought.boosts.contains_key(a) implies {
            &&& bought.boosts[a].amount < modulus()
            &&& bought.boosts[a].start_time < modulus()
            &&& bought.boosts[a].end_time < modulus()
            &&& bought.boosts[a].is_active ==> bought.boosts[a].end_time
                > bought.boosts[a].start_time
        } by {
            if a != account {
                assert(ledger.boosts.contains_key(a));
            }
        }
    }
    let seen = ledger.checked(account, now);
    assert forall|a: Address| #[trigger] seen.boosts.contains_key(a) implies {
        &&& seen.boosts[a].amount < modulus()
        &&& seen.boosts[a].start_time < modulus()
        &&& seen.boosts[a].end_time < modulus()
        &&& seen.boosts[a].is_active ==> seen.boosts[a].end_time > seen.boosts[a].start_time
    } by {
        assert(ledger.boosts.contains_key(a));
    }
}

/// The owner is never among the operators: taking ownership, making and
/// unmaking operators and naming the coordinating service keep a valid ledger
/// valid.
pub proof fn law_owner_is_no_operator(ledger: LedgerView, caller: Address, account: Address)
    requires
        ledger.valid(),
    ensures
        ledger.initialized(caller).valid(),
        ledger.with_operator(account).valid(),
        ledger.without_operator(account).valid(),
        ledger.with_main_contract(account).valid(),
{
}

} // verus!
