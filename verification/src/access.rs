//! The set of accounts that were made operators.

use vstd::prelude::*;
use crate::address::Address;
use crate::table::{map_of, Table};

verus! {

/// The set that a list of entries stands for: the accounts whose last entry
/// says `true`.
pub open spec fn members(entries: Seq<(Address, bool)>) -> Set<Address> {
    Set::new(|a: Address| map_of(entries).contains_key(a) && map_of(entries)[a])
}

/// A set of accounts. Its view is the set it stands for.
pub struct OperatorSet {
    flags: Table<Address, bool>,
}

impl View for OperatorSet {
    type V = Set<Address>;

    closed spec fn view(&self) -> Set<Address> {
        Set::new(|a: Address| self.flags@.contains_key(a) && self.flags@[a])
    }
}

impl OperatorSet {
    /// The empty set.
    pub fn new() -> (r: OperatorSet)
        ensures
            r@ == Set::<Address>::empty(),
    {
        let r = OperatorSet { flags: Table::new() };
        assert(r@ =~= Set::<Address>::empty());
        r
    }

    /// The set that a list of entries stands for.
    pub fn from_entries(entries: Vec<(Address, bool)>) -> (r: OperatorSet)
        ensures
            r@ == members(entries@),
    {
        let r = OperatorSet { flags: Table::from_entries(entries) };
        assert(r@ =~= members(entries@));
        r
    }

    /// A list of entries that stands for the set.
    pub fn into_entries(self) -> (entries: Vec<(Address, bool)>)
        ensures
            members(entries@) == self@,
    {
        let ghost before = self@;
        let entries = self.flags.into_entries();
        assert(members(entries@) =~= before);
        entries
    }

    /// Whether `account` is in the set.
    pub fn contains(&self, account: Address) -> (r: bool)
        ensures
            r == self@.contains(account),
    {
        match self.flags.get(&account) {
            Some(flag) => flag,
            None => false,
        }
    }

    /// Puts `account` into the set.
    pub fn grant(&mut self, account: Address)
        ensures
            final(self)@ == old(self)@.insert(account),
    {
        self.flags.insert(account, true);
        assert(self@ =~= old(self)@.insert(account));
    }

    /// Takes `account` out of the set.
    pub fn revoke(&mut self, account: Address)
        ensures
            final(self)@ == old(self)@.remove(account),
    {
        self.flags.insert(account, false);
        assert(self@ =~= old(self)@.remove(account));
    }
}

} // verus!
