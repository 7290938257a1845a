//! The verifier of interests: it decides from the answers of a token
//! contract and of an oracle whether an account owns an interest token, and
//! keeps the verifications that succeeded.
//!
//! The verifier asks nobody itself. It says what is to be asked next, takes
//! the answer as an argument and says how to go on.

use vstd::prelude::*;
use crate::access::{members, OperatorSet};
use crate::address::Address;
use crate::uint::U256;

verus! {

/// The kinds of failure of the verifier.
#[derive(Clone, Copy, Debug, PartialEq, Eq, Structural)]
pub enum POAPVerifierErrorKind {
    /// The caller may not do this.
    Unauthorized,
    /// The account does not own the token.
    POAPNotOwned,
    /// The null address was given where a service is needed.
    InvalidPOAP,
    /// Neither the token contract nor the oracle gave an answer.
    CallFailed,
}

/// A failure of the verifier.
#[derive(Clone, Copy, Debug, PartialEq, Eq, Structural)]
pub struct POAPVerifierError {
    pub kind: POAPVerifierErrorKind,
}

impl POAPVerifierError {
    /// The caller may not do this.
    pub fn unauthorized() -> (r: Self)
        ensures
            r.kind == POAPVerifierErrorKind::Unauthorized,
    {
        Self { kind: POAPVerifierErrorKind::Unauthorized }
    }

    /// The account does not own the token.
    pub fn poap_not_owned() -> (r: Self)
        ensures
            r.kind == POAPVerifierErrorKind::POAPNotOwned,
    {
        Self { kind: POAPVerifierErrorKind::POAPNotOwned }
    }

    /// The null address was given where a service is needed.
    pub fn invalid_poap() -> (r: Self)
        ensures
            r.kind == POAPVerifierErrorKind::InvalidPOAP,
    {
        Self { kind: POAPVerifierErrorKind::InvalidPOAP }
    }

    /// Neither the token contract nor the oracle gave an answer.
    pub fn call_failed() -> (r: Self)
        ensures
            r.kind == POAPVerifierErrorKind::CallFailed,
    {
        Self { kind: POAPVerifierErrorKind::CallFailed }
    }
}

/// A question to the token contract or to the oracle.
#[derive(Clone, Copy, Debug, PartialEq, Eq, Structural)]
pub enum OwnershipQuery {
    /// The token contract: who owns the token?
    Owner,
    /// The token contract: how many tokens does the account own?
    Balance,
    /// The token contract: which is the token number `index` of the account,
    /// which owns `count` of them?
    Token { index: u64, count: u64 },
    /// The oracle: does the account own the token?
    Oracle,
}

/// The answer to a question.
#[derive(Clone, Copy, Debug, PartialEq, Eq, Structural)]
pub enum OwnershipAnswer {
    /// The token is owned by this account.
    Owner(Address),
    /// The account owns this many tokens.
    Balance(U256),
    /// The token asked for is this one.
    Token(U256),
    /// The oracle says so.
    Oracle(bool),
    /// The question could not be asked, or was not answered.
    Failed,
}

/// How the search for an owner goes on.
#[derive(Clone, Copy, Debug, PartialEq, Eq)]
pub enum OwnershipStep {
    /// This is to be asked next.
    Ask(OwnershipQuery),
    /// The search is over: the account owns the token, or does not, or nobody
    /// could tell.
    Done(Result<bool, POAPVerifierError>),
}

/// The tokens that `user` has verified according to `log`, in the order of
/// their verification.
pub open spec fn poaps_of(log: Seq<(Address, U256)>, user: Address) -> Seq<U256>
    decreases log.len(),
{
    if log.len() == 0 {
        Seq::empty()
    } else if log.last().0 == user {
        poaps_of(log.drop_last(), user).push(log.last().1)
    } else {
        poaps_of(log.drop_last(), user)
    }
}

/// How often `poap` was verified according to `log`.
pub open spec fn times_verified(log: Seq<(Address, U256)>, poap: U256) -> nat
    decreases log.len(),
{
    if log.len() == 0 {
        0
    } else {
        times_verified(log.drop_last(), poap) + if log.last().1 == poap {
            1nat
        } else {
            0nat
        }
    }
}

/// The verifier as mathematics: what every contract of [`POAPVerifier`]
/// speaks of.
pub struct VerifierView {
    /// The token contract; the null address while there is none.
    pub poap_contract: Address,
    /// The oracle; the null address while there is none.
    pub poap_oracle: Address,
    /// The owner; the null address while there is none.
    pub owner: Address,
    /// The registry that the verifier works for; the null address while there
    /// is none.
    pub main_contract: Address,
    /// The accounts that were made operators.
    pub operators: Set<Address>,
    /// Every verification that succeeded, the first one first: the account
    /// and the token.
    pub log: Seq<(Address, U256)>,
}

impl VerifierView {
    /// A verifier that nobody has touched.
    pub open spec fn empty() -> VerifierView {
        VerifierView {
            poap_contract: Address::null(),
            poap_oracle: Address::null(),
            owner: Address::null(),
            main_contract: Address::null(),
            operators: Set::empty(),
            log: Seq::empty(),
        }
    }

    /// Whether `account` may have an ownership verified: the owner, the
    /// registry and the operators may.
    pub open spec fn is_operator(self, account: Address) -> bool {
        account == self.owner || account == self.main_contract || self.operators.contains(account)
    }

    /// The verifier after `caller` has taken ownership of it.
    pub open spec fn initialized(self, caller: Address) -> VerifierView {
        VerifierView {
            owner: caller,
            poap_contract: Address::null(),
            poap_oracle: Address::null(),
            main_contract: Address::null(),
            operators: self.operators.remove(caller),
            ..self
        }
    }

    /// The verifier after `account` was made an operator. The owner holds
    /// every right already and is not entered.
    pub open spec fn with_operator(self, account: Address) -> VerifierView {
        if account == self.owner {
            self
        } else {
            VerifierView { operators: self.operators.insert(account), ..self }
        }
    }

    /// What follows where the token contract is of no help: the oracle is
    /// asked if there is one, else the search has failed.
    pub open spec fn without_contract(self) -> OwnershipStep {
        if self.poap_oracle != Address::null() {
            OwnershipStep::Ask(OwnershipQuery::Oracle)
        } else {
            OwnershipStep::Done(
                Err(POAPVerifierError { kind: POAPVerifierErrorKind::CallFailed }),
            )
        }
    }

    /// How the search begins: with the owner of the token, where a token
    /// contract is named.
    pub open spec fn first_step(self) -> OwnershipStep {
        if self.poap_contract != Address::null() {
            OwnershipStep::Ask(OwnershipQuery::Owner)
        } else {
            self.without_contract()
        }
    }

    /// How the search whether `user` owns `poap` goes on after `asked` got
    /// the answer `answer`.
    ///
    /// The owner of the token settles it. Without that answer the tokens of
    /// the account are gone through one by one, as many as its balance says,
    /// and the token is owned if it is among them. Without a balance the
    /// oracle settles it, and without an oracle, or an answer of it, nobody
    /// can tell. An answer to another question than the one asked counts as
    /// none.
    pub open spec fn next_step(
        self,
        user: Address,
        poap: U256,
        asked: OwnershipQuery,
        answer: OwnershipAnswer,
    ) -> OwnershipStep {
        match asked {
            OwnershipQuery::Owner => match answer {
                OwnershipAnswer::Owner(owner) => OwnershipStep::Done(Ok(owner == user)),
                _ => OwnershipStep::Ask(OwnershipQuery::Balance),
            },
            OwnershipQuery::Balance => match answer {
                OwnershipAnswer::Balance(balance) => if balance@ == 0 {
                    OwnershipStep::Done(Ok(false))
                } else {
                    OwnershipStep::Ask(
                        OwnershipQuery::Token {
                            index: 0,
                            count: if balance@ <= u64::MAX {
                                balance@ as u64
                            } else {
                                u64::MAX
                            },
                        },
                    )
                },
                _ => self.without_contract(),
            },
            OwnershipQuery::Token { index, count } => if answer == OwnershipAnswer::Token(poap) {
                OwnershipStep::Done(Ok(true))
            } else if index + 1 < count {
                OwnershipStep::Ask(OwnershipQuery::Token { index: (index + 1) as u64, count })
            } else {
                OwnershipStep::Done(Ok(false))
            },
            OwnershipQuery::Oracle => match answer {
                OwnershipAnswer::Oracle(owned) => OwnershipStep::Done(Ok(owned)),
                _ => OwnershipStep::Done(
                    Err(POAPVerifierError { kind: POAPVerifierErrorKind::CallFailed }),
                ),
            },
        }
    }

    /// The verifier after the ownership of `poap` by `user` was verified.
    pub open spec fn with_verification(self, user: Address, poap: U256) -> VerifierView {
        VerifierView { log: self.log.push((user, poap)), ..self }
    }
}

/// All that a verifier holds, as plain values: what is written down to keep
/// a verifier, and read to have it back.
pub struct VerifierParts {
    pub poap_contract: Address,
    pub poap_oracle: Address,
    pub owner: Address,
    pub main_contract: Address,
    /// Who was made an operator (`true`) and who ceased to be one (`false`);
    /// of two entries of one account the later counts.
    pub operators: Vec<(Address, bool)>,
    /// Every verification that succeeded, the first one first.
    pub log: Vec<(Address, U256)>,
}

impl View for VerifierParts {
    type V = VerifierView;

    open spec fn view(&self) -> VerifierView {
        VerifierView {
            poap_contract: self.poap_contract,
            poap_oracle: self.poap_oracle,
            owner: self.owner,
            main_contract: self.main_contract,
            operators: members(self.operators@),
            log: self.log@,
        }
    }
}

/// The verifier of interests.
pub struct POAPVerifier {
    poap_contract: Address,
    poap_oracle: Address,
    owner: Address,
    main_contract: Address,
    operators: OperatorSet,
    log: Vec<(Address, U256)>,
}

impl View for POAPVerifier {
    type V = VerifierView;

    closed spec fn view(&self) -> VerifierView {
        VerifierView {
            poap_contract: self.poap_contract,
            poap_oracle: self.poap_oracle,
            owner: self.owner,
            main_contract: self.main_contract,
            operators: self.operators@,
            log: self.log@,
        }
    }
}

impl POAPVerifier {
    /// A verifier that nobody has touched.
    pub fn new() -> (r: POAPVerifier)
        ensures
            r@ == VerifierView::empty(),
    {
        POAPVerifier {
            poap_contract: Address::zero(),
            poap_oracle: Address::zero(),
            owner: Address::zero(),
            main_contract: Address::zero(),
            operators: OperatorSet::new(),
            log: Vec::new(),
        }
    }

    /// The verifier that `parts` holds.
    pub fn from_parts(parts: VerifierParts) -> (r: POAPVerifier)
        ensures
            r@ == parts@,
    {
        POAPVerifier {
            poap_contract: parts.poap_contract,
            poap_oracle: parts.poap_oracle,
            owner: parts.owner,
            main_contract: parts.main_contract,
            operators: OperatorSet::from_entries(parts.operators),
            log: parts.log,
        }
    }

    /// All that the verifier holds, as plain values.
    pub fn into_parts(self) -> (parts: VerifierParts)
        ensures
            parts@ == self@,
    {
        VerifierParts {
            poap_contract: self.poap_contract,
            poap_oracle: self.poap_oracle,
            owner: self.owner,
            main_contract: self.main_contract,
            operators: self.operators.into_entries(),
            log: self.log,
        }
    }

    /// Makes `caller` the owner. This works once: with an owner in place it is
    /// refused. No service is named afterwards.
    pub fn init(&mut self, caller: Address) -> (r: Result<(), POAPVerifierError>)
        ensures
            old(self)@.owner == Address::null() ==> r.is_ok() && final(self)@ == old(
                self,
            )@.initialized(caller),
            old(self)@.owner != Address::null() ==> r == Err::<(), _>(
                POAPVerifierError { kind: POAPVerifierErrorKind::Unauthorized },
            ) && final(self)@ == old(self)@,
    {
        if !self.owner.is_zero() {
            return Err(POAPVerifierError::unauthorized());
        }
        self.owner = caller;
        self.operators.revoke(caller);
        self.poap_contract = Address::zero();
        self.poap_oracle = Address::zero();
        self.main_contract = Address::zero();
        Ok(())
    }

    /// Names the registry that the verifier works for, and makes it an
    /// operator. Only the owner may; the null address is refused.
    pub fn set_main_contract(&mut self, caller: Address, main_contract: Address) -> (r: Result<
        (),
        POAPVerifierError,
    >)
        ensures
            r == if caller != old(self)@.owner {
                Err::<(), _>(POAPVerifierError { kind: POAPVerifierErrorKind::Unauthorized })
            } else if main_contract == Address::null() {
                Err(POAPVerifierError { kind: POAPVerifierErrorKind::InvalidPOAP })
            } else {
                Ok(())
            },
            r.is_ok() ==> final(self)@ == (VerifierView {
                main_contract,
                ..old(self)@.with_operator(main_contract)
            }),
            r.is_err() ==> final(self)@ == old(self)@,
    {
        if caller != self.owner {
            return Err(POAPVerifierError::unauthorized());
        }
        if main_contract.is_zero() {
            return Err(POAPVerifierError::invalid_poap());
        }
        if main_contract != self.owner {
            self.operators.grant(main_contract);
        }
        self.main_contract = main_contract;
        Ok(())
    }

    /// Names the oracle. Only the owner may. The null address takes the oracle
    /// away.
    pub fn set_poap_oracle(&mut self, caller: Address, oracle_address: Address) -> (r: Result<
        (),
        POAPVerifierError,
    >)
        ensures
            r == if caller != old(self)@.owner {
                Err::<(), _>(POAPVerifierError { kind: POAPVerifierErrorKind::Unauthorized })
            } else {
                Ok(())
            },
            r.is_ok() ==> final(self)@ == (VerifierView {
                poap_oracle: oracle_address,
                ..old(self)@
            }),
            r.is_err() ==> final(self)@ == old(self)@,
    {
        if caller != self.owner {
            return Err(POAPVerifierError::unauthorized());
        }
        self.poap_oracle = oracle_address;
        Ok(())
    }

    /// Names the token contract. Only the owner may. The null address takes
    /// the token contract away.
    pub fn update_poap_contract(&mut self, caller: Address, new_contract: Address) -> (r: Result<
        (),
        POAPVerifierError,
    >)
        ensures
            r == if caller != old(self)@.owner {
                Err::<(), _>(POAPVerifierError { kind: POAPVerifierErrorKind::Unauthorized })
            } else {
                Ok(())
            },
            r.is_ok() ==> final(self)@ == (VerifierView {
                poap_contract: new_contract,
                ..old(self)@
            }),
            r.is_err() ==> final(self)@ == old(self)@,
    {
        if caller != self.owner {
            return Err(POAPVerifierError::unauthorized());
        }
        self.poap_contract = new_contract;
        Ok(())
    }

    /// Makes `operator` an operator. Only the owner may.
    pub fn add_operator(&mut self, caller: Address, operator: Address) -> (r: Result<
        (),
        POAPVerifierError,
    >)
        ensures
            r == if caller != old(self)@.owner {
                Err::<(), _>(POAPVerifierError { kind: POAPVerifierErrorKind::Unauthorized })
            } else {
                Ok(())
            },
            r.is_ok() ==> final(self)@ == old(self)@.with_operator(operator),
            r.is_err() ==> final(self)@ == old(self)@,
    {
        if caller != self.owner {
            return Err(POAPVerifierError::unauthorized());
        }
        if operator != self.owner {
            self.operators.grant(operator);
        }
        Ok(())
    }

    /// Takes `operator` out of the operators. Only the owner may.
    pub fn remove_operator(&mut self, caller: Address, operator: Address) -> (r: Result<
        (),
        POAPVerifierError,
    >)
        ensures
            r == if caller != old(self)@.owner {
                Err::<(), _>(POAPVerifierError { kind: POAPVerifierErrorKind::Unauthorized })
            } else {
                Ok(())
            },
            r.is_ok() ==> final(self)@ == (VerifierView {
                operators: old(self)@.operators.remove(operator),
                ..old(self)@
            }),
            r.is_err() ==> final(self)@ == old(self)@,
    {
        if caller != self.owner {
            return Err(POAPVerifierError::unauthorized());
        }
        self.operators.revoke(operator);
        Ok(())
    }

    /// The token contract; the null address while there is none.
    pub fn get_poap_contract(&self) -> (r: Address)
        ensures
            r == self@.poap_contract,
    {
        self.poap_contract
    }

    /// The oracle; the null address while there is none.
    pub fn get_poap_oracle(&self) -> (r: Address)
        ensures
            r == self@.poap_oracle,
    {
        self.poap_oracle
    }

    /// Whether `account` may have an ownership verified.
    pub fn is_operator(&self, account: Address) -> (r: bool)
        ensures
            r == self@.is_operator(account),
    {
        account == self.owner || account == self.main_contract || self.operators.contains(account)
    }

    /// What follows where the token contract is of no help.
    fn without_contract(&self) -> (r: OwnershipStep)
        ensures
            r == self@.without_contract(),
    {
        if !self.poap_oracle.is_zero() {
            OwnershipStep::Ask(OwnershipQuery::Oracle)
        } else {
            OwnershipStep::Done(Err(POAPVerifierError::call_failed()))
        }
    }

    /// How a verification for `caller` begins: with the first question of
    /// the search, where `caller` may have an ownership verified at all.
    pub fn begin_verification(&self, caller: Address) -> (r: Result<
        OwnershipStep,
        POAPVerifierError,
    >)
        ensures
            r == if !self@.is_operator(caller) {
                Err::<OwnershipStep, _>(
                    POAPVerifierError { kind: POAPVerifierErrorKind::Unauthorized },
                )
            } else {
                Ok(self@.first_step())
            },
    {
        if !self.is_operator(caller) {
            return Err(POAPVerifierError::unauthorized());
        }
        Ok(self.first_query())
    }

    /// How the search for the owner of a token begins.
    pub fn first_query(&self) -> (r: OwnershipStep)
        ensures
            r == self@.first_step(),
    {
        if !self.poap_contract.is_zero() {
            OwnershipStep::Ask(OwnershipQuery::Owner)
        } else {
            self.without_contract()
        }
    }

    /// How the search whether `user` owns `poap_id` goes on after `asked` got
    /// the answer `answer`: with another question, or with the outcome.
    pub fn check_poap_ownership(
        &self,
        user: Address,
        poap_id: U256,
        asked: OwnershipQuery,
        answer: OwnershipAnswer,
    ) -> (r: OwnershipStep)
        ensures
            r == self@.next_step(user, poap_id, asked, answer),
    {
        match asked {
            OwnershipQuery::Owner => match answer {
                OwnershipAnswer::Owner(owner) => OwnershipStep::Done(Ok(owner == user)),
                _ => OwnershipStep::Ask(OwnershipQuery::Balance),
            },
            OwnershipQuery::Balance => match answer {
                OwnershipAnswer::Balance(balance) => {
                    if balance.is_zero() {
                        OwnershipStep::Done(Ok(false))
                    } else {
                        let count = match balance.to_u64() {
                            Some(n) => n,
                            None => u64::MAX,
                        };
                        OwnershipStep::Ask(OwnershipQuery::Token { index: 0, count })
                    }
                },
                _ => self.without_contract(),
            },
            OwnershipQuery::Token { index, count } => {
                let found = match answer {
                    OwnershipAnswer::Token(token) => token == poap_id,
                    _ => false,
                };
                if found {
                    OwnershipStep::Done(Ok(true))
                } else if index < count && index + 1 < count {
                    OwnershipStep::Ask(OwnershipQuery::Token { index: index + 1, count })
                } else {
                    OwnershipStep::Done(Ok(false))
                }
            },
            OwnershipQuery::Oracle => match answer {
                OwnershipAnswer::Oracle(owned) => OwnershipStep::Done(Ok(owned)),
                _ => OwnershipStep::Done(Err(POAPVerifierError::call_failed())),
            },
        }
    }

    /// Ends a verification for `caller` of whether `user` owns `poap_id`.
    /// `outcome` is how the search for the owner ended. Only the owner, the
    /// registry and the operators may have an ownership verified. A search
    /// that failed fails the verification; one that found `user` to be the
    /// owner is entered among the verifications.
    pub fn verify_poap_ownership(
        &mut self,
        caller: Address,
        user: Address,
        poap_id: U256,
        outcome: Result<bool, POAPVerifierError>,
    ) -> (r: Result<bool, POAPVerifierError>)
        ensures
            r == if !old(self)@.is_operator(caller) {
                Err::<bool, _>(POAPVerifierError { kind: POAPVerifierErrorKind::Unauthorized })
            } else {
                outcome
            },
            final(self)@ == if r == Ok::<bool, POAPVerifierError>(true) {
                old(self)@.with_verification(user, poap_id)
            } else {
                old(self)@
            },
    {
        if !self.is_operator(caller) {
            return Err(POAPVerifierError::unauthorized());
        }
        match outcome {
            Ok(owned) => {
                if owned {
                    self.log.push((user, poap_id));
                }
                Ok(owned)
            },
            Err(e) => Err(e),
        }
    }

    /// The tokens that `user` has verified, in the order of their
    /// verification.
    pub fn get_verified_poaps(&self, user: Address) -> (r: Vec<U256>)
        ensures
            r@ == poaps_of(self@.log, user),
    {
        let mut poaps: Vec<U256> = Vec::new();
        let mut i: usize = 0;
        while i < self.log.len()
            invariant
                i <= self.log@.len(),
                poaps@ == poaps_of(self.log@.take(i as int), user),
            decreases self.log@.len() - i,
        {
            proof {
                assert(self.log@.take(i + 1).drop_last() == self.log@.take(i as int));
            }
            if self.log[i].0 == user {
                poaps.push(self.log[i].1);
            }
            i += 1;
        }
        proof {
            assert(self.log@.take(self.log@.len() as int) == self.log@);
        }
        poaps
    }

    /// The token that `user` verified last, or zero where it has verified
    /// none.
    pub fn get_last_verified_poap(&self, user: Address) -> (r: U256)
        ensures
            poaps_of(self@.log, user).len() > 0 ==> r == poaps_of(self@.log, user).last(),
            poaps_of(self@.log, user).len() == 0 ==> r@ == 0,
    {
        let poaps = self.get_verified_poaps(user);
        let n = poaps.len();
        if n > 0 {
            poaps[n - 1]
        } else {
            U256::zero()
        }
    }

    /// How often `poap_id` was verified, by whatever account.
    pub fn get_poap_verification_count(&self, poap_id: U256) -> (r: U256)
        ensures
            r@ == times_verified(self@.log, poap_id),
    {
        let mut count: u64 = 0;
        let mut i: usize = 0;
        while i < self.log.len()
            invariant
                i <= self.log@.len(),
                count <= i,
                count == times_verified(self.log@.take(i as int), poap_id),
            decreases self.log@.len() - i,
        {
            proof {
                assert(self.log@.take(i + 1).drop_last() == self.log@.take(i as int));
            }
            if self.log[i].1 == poap_id {
                count += 1;
            }
            i += 1;
        }
        proof {
            assert(self.log@.take(self.log@.len() as int) == self.log@);
        }
        U256::from_u64(count)
    }

    /// Whether `user` has verified at least one token.
    pub fn is_user_verified(&self, user: Address) -> (r: bool)
        ensures
            r == (poaps_of(self@.log, user).len() > 0),
    {
        self.get_verified_poaps(user).len() > 0
    }
}

/// How many questions can still follow after `asked`, at most.
pub open spec fn questions_left(asked: OwnershipQuery) -> nat {
    match asked {
        OwnershipQuery::Owner => 0x1_0000_0000_0000_0000nat + 2,
        OwnershipQuery::Balance => 0x1_0000_0000_0000_0000nat + 1,
        OwnershipQuery::Token { index, count } => if index < count {
            (count - index) as nat
        } else {
            0
        },
        OwnershipQuery::Oracle => 0,
    }
}

/// Every search ends: whatever is answered, each question leaves fewer
/// questions to follow than the one before it.
pub proof fn law_search_ends(
    state: VerifierView,
    user: Address,
    poap: U256,
    asked: OwnershipQuery,
    answer: OwnershipAnswer,
)
    ensures
        match state.next_step(user, poap, asked, answer) {
            OwnershipStep::Ask(next) => questions_left(next) < questions_left(asked),
            OwnershipStep::Done(_) => true,
        },
{
}

} // verus!
