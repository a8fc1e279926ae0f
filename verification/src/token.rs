//! A fungible-token ledger of the kind that backs token escrows: balances,
//! allowances, `transfer` and `transfer_from`.
//!
//! The view of a ledger is a [`Ledger`]: the supply, what every account
//! holds and what every owner has granted to every spender. The supply is
//! the sum of all balances, which is why no balance can overflow.

use vstd::prelude::*;
use crate::book::{
    absent, distinct_keys, held, lemma_absent_holds_nothing, lemma_entry_is_held,
    lemma_entry_within_total, lemma_push, lemma_total_of_front, lemma_update, total,
};
use crate::types::Address;

verus! {

/// Why the ledger turned a transfer down.
#[derive(Clone, Copy, Debug, PartialEq, Eq, Structural)]
pub enum Error {
    /// The account to debit holds less than the value.
    InsufficientBalance,
    /// The owner has granted the spender less than the value.
    InsufficientAllowance,
}

/// Why the ledger did not issue new supply.
#[derive(Clone, Copy, Debug, PartialEq, Eq, Structural)]
pub enum MintError {
    /// Only the owner of the ledger issues supply.
    NotOwner,
    /// The supply would no longer fit in a `u128`.
    Overflow,
}

/// The record of value that moved; `from` is `None` for new supply.
#[derive(Clone, Copy, Debug, PartialEq, Eq)]
pub struct Transfer {
    pub from: Option<Address>,
    pub to: Option<Address>,
    pub value: u128,
}

/// The record of an allowance that was set.
#[derive(Clone, Copy, Debug, PartialEq, Eq)]
pub struct Approval {
    pub owner: Address,
    pub spender: Address,
    pub value: u128,
}

/// What a token ledger stands for.
pub struct Ledger {
    /// The account that created the ledger and may issue supply.
    pub owner: Address,
    /// The number of units in existence.
    pub supply: nat,
    /// What each account holds.
    pub balances: Map<Address, nat>,
    /// What each owner lets each spender move: keyed by (owner, spender).
    pub allowances: Map<(Address, Address), nat>,
}

impl Ledger {
    /// The ledger after `value` has moved from `from` to `to`.
    pub open spec fn moved(self, from: Address, to: Address, value: nat) -> Ledger {
        let debited = self.balances.insert(from, (self.balances[from] - value) as nat);
        Ledger { balances: debited.insert(to, debited[to] + value), ..self }
    }

    /// The ledger after `owner` has set the allowance of `spender`.
    pub open spec fn approved(self, owner: Address, spender: Address, value: nat) -> Ledger {
        Ledger { allowances: self.allowances.insert((owner, spender), value), ..self }
    }

    /// The ledger after `value` of new supply has gone to `to`.
    pub open spec fn minted(self, to: Address, value: nat) -> Ledger {
        Ledger {
            supply: self.supply + value,
            balances: self.balances.insert(to, self.balances[to] + value),
            ..self
        }
    }

    /// The ledger that `holder` owns, in which `holder` holds the whole
    /// supply `supply` and nothing is granted.
    pub open spec fn issued(holder: Address, supply: nat) -> Ledger {
        Ledger {
            owner: holder,
            supply,
            balances: Map::total(|who: Address| if who == holder { supply } else { 0 }),
            allowances: Map::total(|pair: (Address, Address)| 0nat),
        }
    }
}

/// A token ledger held in memory.
#[derive(Debug)]
pub struct Psp22Token {
    owner: Address,
    total_supply: u128,
    balances: Vec<(Address, u128)>,
    allowances: Vec<((Address, Address), u128)>,
}

impl View for Psp22Token {
    type V = Ledger;

    closed spec fn view(&self) -> Ledger {
        Ledger {
            owner: self.owner,
            supply: self.total_supply as nat,
            balances: Map::total(|who: Address| held(self.balances@, who)),
            allowances: Map::total(|pair: (Address, Address)| held(self.allowances@, pair)),
        }
    }
}

impl Psp22Token {
    /// No account and no pair of owner and spender is listed twice, and
    /// the balances add up to the supply.
    pub closed spec fn wf(&self) -> bool {
        &&& distinct_keys(self.balances@)
        &&& distinct_keys(self.allowances@)
        &&& total(self.balances@) == self.total_supply
    }

    /// A ledger whose whole supply `total_supply` is held by `caller`.
    pub fn new(caller: Address, total_supply: u128) -> (token: Psp22Token)
        ensures
            token.wf(),
            token@ == Ledger::issued(caller, total_supply as nat),
    {
        let mut balances: Vec<(Address, u128)> = Vec::new();
        let allowances: Vec<((Address, Address), u128)> = Vec::new();
        proof {
            assert forall|who: Address| caller != who implies held(balances@, who) == 0 by {
                lemma_absent_holds_nothing(balances@, who);
            }
            lemma_push(balances@, caller, total_supply, caller);
            assert forall|who: Address| #[trigger]
                held(balances@.push((caller, total_supply)), who) == if who == caller {
                    total_supply as nat
                } else {
                    0
                } by {
                lemma_absent_holds_nothing(balances@, who);
                lemma_push(balances@, caller, total_supply, who);
            }
        }
        balances.push((caller, total_supply));
        let token = Psp22Token { owner: caller, total_supply, balances, allowances };
        proof {
            assert(token@.balances =~= Ledger::issued(caller, total_supply as nat).balances);
            assert(token@.allowances =~= Ledger::issued(caller, total_supply as nat).allowances);
        }
        token
    }

    /// Whether no account is listed twice in `entries`.
    fn holders_distinct(entries: &Vec<(Address, u128)>) -> (ok: bool)
        ensures
            ok == distinct_keys(entries@),
    {
        let mut j: usize = 0;
        while j < entries.len()
            invariant
                j <= entries@.len(),
                forall|a: int, b: int| 0 <= a < b < j ==> entries@[a].0 != entries@[b].0,
            decreases entries@.len() - j,
        {
            let mut i: usize = 0;
            while i < j
                invariant
                    i <= j < entries@.len(),
                    forall|a: int| 0 <= a < i ==> entries@[a].0 != entries@[j as int].0,
                decreases j - i,
            {
                if entries[i].0.same(&entries[j].0) {
                    return false;
                }
                i += 1;
            }
            j += 1;
        }
        true
    }

    /// Whether no pair of owner and spender is listed twice in `entries`.
    fn grants_distinct(entries: &Vec<((Address, Address), u128)>) -> (ok: bool)
        ensures
            ok == distinct_keys(entries@),
    {
        let mut j: usize = 0;
        while j < entries.len()
            invariant
                j <= entries@.len(),
                forall|a: int, b: int| 0 <= a < b < j ==> entries@[a].0 != entries@[b].0,
            decreases entries@.len() - j,
        {
            let mut i: usize = 0;
            while i < j
                invariant
                    i <= j < entries@.len(),
                    forall|a: int| 0 <= a < i ==> entries@[a].0 != entries@[j as int].0,
                decreases j - i,
            {
                if entries[i].0.0.same(&entries[j].0.0) && entries[i].0.1.same(&entries[j].0.1) {
                    return false;
                }
                i += 1;
            }
            j += 1;
        }
        true
    }

    /// The sum of the amounts in `entries`, where it fits in a `u128`.
    fn sum_of(entries: &Vec<(Address, u128)>) -> (sum: Option<u128>)
        ensures
            sum is Some <==> total(entries@) <= u128::MAX,
            sum is Some ==> sum->0 == total(entries@),
    {
        let mut sum: u128 = 0;
        let mut i: usize = 0;
        while i < entries.len()
            invariant
                i <= entries@.len(),
                sum == total(entries@.take(i as int)),
            decreases entries@.len() - i,
        {
            proof {
                lemma_total_of_front(entries@, i as int);
            }
            if entries[i].1 > u128::MAX - sum {
                return None;
            }
            sum = sum + entries[i].1;
            i += 1;
        }
        proof {
            assert(entries@.take(entries@.len() as int) =~= entries@);
        }
        Some(sum)
    }

    /// The ledger that was stored as its owner, the supply `total_supply`,
    /// the list `balances` of accounts with what they hold and the list
    /// `allowances` of owners and spenders with what is granted.
    ///
    /// Fails where an account or a pair is listed twice, or the balances
    /// do not add up to the supply.
    pub fn restore(
        owner: Address,
        total_supply: u128,
        balances: Vec<(Address, u128)>,
        allowances: Vec<((Address, Address), u128)>,
    ) -> (token: Option<Psp22Token>)
        ensures
            token is Some <==> distinct_keys(balances@) && distinct_keys(allowances@) && total(
                balances@,
            ) == total_supply,
            token matches Some(t) ==> t.wf() && t@ == (Ledger {
                owner,
                supply: total_supply as nat,
                balances: Map::total(|who: Address| held(balances@, who)),
                allowances: Map::total(|pair: (Address, Address)| held(allowances@, pair)),
            }),
    {
        if !Self::holders_distinct(&balances) || !Self::grants_distinct(&allowances) {
            return None;
        }
        match Self::sum_of(&balances) {
            Some(sum) if sum == total_supply => Some(
                Psp22Token { owner, total_supply, balances, allowances },
            ),
            _ => None,
        }
    }

    /// What there is to store of the ledger: the accounts with what they
    /// hold, and the owners and spenders with what is granted. `restore`
    /// takes both back.
    pub fn entries(&self) -> (lists: (Vec<(Address, u128)>, Vec<((Address, Address), u128)>))
        requires
            self.wf(),
        ensures
            distinct_keys(lists.0@),
            distinct_keys(lists.1@),
            total(lists.0@) == self@.supply,
            self@.balances == Map::total(|who: Address| held(lists.0@, who)),
            self@.allowances == Map::total(|pair: (Address, Address)| held(lists.1@, pair)),
    {
        let mut holders: Vec<(Address, u128)> = Vec::new();
        let mut i: usize = 0;
        while i < self.balances.len()
            invariant
                i <= self.balances@.len(),
                holders@ == self.balances@.take(i as int),
            decreases self.balances@.len() - i,
        {
            holders.push(self.balances[i]);
            assert(self.balances@.take(i + 1) =~= self.balances@.take(i as int).push(
                self.balances@[i as int],
            ));
            i += 1;
        }
        let mut grants: Vec<((Address, Address), u128)> = Vec::new();
        let mut k: usize = 0;
        while k < self.allowances.len()
            invariant
                k <= self.allowances@.len(),
                grants@ == self.allowances@.take(k as int),
            decreases self.allowances@.len() - k,
        {
            grants.push(self.allowances[k]);
            assert(self.allowances@.take(k + 1) =~= self.allowances@.take(k as int).push(
                self.allowances@[k as int],
            ));
            k += 1;
        }
        proof {
            assert(holders@ =~= self.balances@);
            assert(grants@ =~= self.allowances@);
        }
        (holders, grants)
    }

    /// The record of the supply that `new` issued to `caller`.
    pub fn issue_record(&self, caller: Address) -> (record: Transfer)
        ensures
            record == (Transfer { from: None, to: Some(caller), value: self@.supply as u128 }),
    {
        Transfer { from: None, to: Some(caller), value: self.total_supply }
    }

    /// The account that created the ledger.
    pub fn owner(&self) -> (owner: Address)
        ensures
            owner == self@.owner,
    {
        self.owner
    }

    /// The number of units in existence.
    pub fn total_supply(&self) -> (supply: u128)
        ensures
            supply == self@.supply,
    {
        self.total_supply
    }

    fn find_holder(&self, who: &Address) -> (at: Option<usize>)
        ensures
            at matches Some(i) ==> i < self.balances@.len() && self.balances@[i as int].0 == *who,
            at is None ==> absent(self.balances@, *who),
    {
        let mut i: usize = 0;
        while i < self.balances.len()
            invariant
                i <= self.balances@.len(),
                forall|j: int| 0 <= j < i ==> self.balances@[j].0 != *who,
            decreases self.balances@.len() - i,
        {
            if self.balances[i].0.same(who) {
                return Some(i);
            }
            i += 1;
        }
        None
    }

    fn find_grant(&self, owner: &Address, spender: &Address) -> (at: Option<usize>)
        ensures
            at matches Some(i) ==> i < self.allowances@.len() && self.allowances@[i as int].0 == (
                *owner,
                *spender,
            ),
            at is None ==> absent(self.allowances@, (*owner, *spender)),
    {
        let mut i: usize = 0;
        while i < self.allowances.len()
            invariant
                i <= self.allowances@.len(),
                forall|j: int| 0 <= j < i ==> self.allowances@[j].0 != (*owner, *spender),
            decreases self.allowances@.len() - i,
        {
            if self.allowances[i].0.0.same(owner) && self.allowances[i].0.1.same(spender) {
                return Some(i);
            }
            i += 1;
        }
        None
    }

    /// What `owner` holds; zero for an account that the ledger never saw.
    pub fn balance_of(&self, owner: Address) -> (balance: u128)
        requires
            self.wf(),
        ensures
            balance == self@.balances[owner],
    {
        match self.find_holder(&owner) {
            Some(i) => {
                proof {
                    lemma_entry_is_held(self.balances@, i as int);
                }
                self.balances[i].1
            },
            None => {
                proof {
                    lemma_absent_holds_nothing(self.balances@, owner);
                }
                0
            },
        }
    }

    /// What `owner` lets `spender` move; zero where nothing was granted.
    pub fn allowance(&self, owner: Address, spender: Address) -> (granted: u128)
        requires
            self.wf(),
        ensures
            granted == self@.allowances[(owner, spender)],
    {
        match self.find_grant(&owner, &spender) {
            Some(i) => {
                proof {
                    lemma_entry_is_held(self.allowances@, i as int);
                }
                self.allowances[i].1
            },
            None => {
                proof {
                    lemma_absent_holds_nothing(self.allowances@, (owner, spender));
                }
                0
            },
        }
    }

    fn set_allowance(&mut self, owner: Address, spender: Address, value: u128)
        requires
            old(self).wf(),
        ensures
            final(self).wf(),
            final(self)@ == old(self)@.approved(owner, spender, value as nat),
    {
        let ghost before = self.allowances@;
        match self.find_grant(&owner, &spender) {
            Some(i) => {
                proof {
                    assert forall|pair: (Address, Address)| #[trigger]
                        held(before.update(i as int, ((owner, spender), value)), pair) == if pair
                            == (owner, spender) {
                            value as nat
                        } else {
                            held(before, pair)
                        } by {
                        lemma_update(before, i as int, value, pair);
                    }
                    lemma_update(before, i as int, value, (owner, spender));
                }
                self.allowances[i] = ((owner, spender), value);
            },
            None => {
                proof {
                    assert forall|pair: (Address, Address)| #[trigger]
                        held(before.push(((owner, spender), value)), pair) == if pair == (
                            owner,
                            spender,
                        ) {
                            value as nat
                        } else {
                            held(before, pair)
                        } by {
                        lemma_push(before, (owner, spender), value, pair);
                    }
                    lemma_push(before, (owner, spender), value, (owner, spender));
                }
                self.allowances.push(((owner, spender), value));
            },
        }
        proof {
            assert(self@.allowances =~= old(self)@.approved(
                owner,
                spender,
                value as nat,
            ).allowances);
        }
    }

    /// Sets what `caller` lets `spender` move to `value`, whatever it was.
    /// Always succeeds.
    pub fn approve(&mut self, caller: Address, spender: Address, value: u128) -> (r: Result<
        Approval,
        Error,
    >)
        requires
            old(self).wf(),
        ensures
            final(self).wf(),
            r == Ok::<Approval, Error>(Approval { owner: caller, spender, value }),
            final(self)@ == old(self)@.approved(caller, spender, value as nat),
    {
        self.set_allowance(caller, spender, value);
        Ok(Approval { owner: caller, spender, value })
    }

    /// Moves `value` from `from` to `to`, or fails with
    /// `InsufficientBalance` and changes nothing where `from` holds less.
    pub fn transfer_from_to(&mut self, from: &Address, to: &Address, value: u128) -> (r: Result<
        Transfer,
        Error,
    >)
        requires
            old(self).wf(),
        ensures
            final(self).wf(),
            old(self)@.balances[*from] < value ==> r == Err::<Transfer, Error>(
                Error::InsufficientBalance,
            ) && final(self)@ == old(self)@,
            old(self)@.balances[*from] >= value ==> r == Ok::<Transfer, Error>(
                Transfer { from: Some(*from), to: Some(*to), value },
            ) && final(self)@ == old(self)@.moved(*from, *to, value as nat),
    {
        let ghost start = self.balances@;
        let source = self.find_holder(from);
        let from_balance: u128 = match source {
            Some(i) => {
                proof {
                    lemma_entry_is_held(start, i as int);
                }
                self.balances[i].1
            },
            None => {
                proof {
                    lemma_absent_holds_nothing(start, *from);
                }
                0
            },
        };
        if from_balance < value {
            return Err(Error::InsufficientBalance);
        }
        match source {
            Some(i) => {
                proof {
                    lemma_entry_within_total(start, i as int);
                    lemma_update(start, i as int, (from_balance - value) as u128, *from);
                    assert forall|who: Address| #[trigger]
                        held(
                            start.update(i as int, (*from, (from_balance - value) as u128)),
                            who,
                        ) == if who == *from {
                            (from_balance - value) as nat
                        } else {
                            held(start, who)
                        } by {
                        lemma_update(start, i as int, (from_balance - value) as u128, who);
                    }
                }
                self.balances[i] = (*from, from_balance - value);
            },
            None => {},
        }
        let ghost debited = self.balances@;
        assert(total(debited) == self.total_supply - value);
        assert(forall|who: Address| #[trigger]
            held(debited, who) == if who == *from {
                (from_balance - value) as nat
            } else {
                held(start, who)
            });
        match self.find_holder(to) {
            Some(j) => {
                let to_balance: u128 = self.balances[j].1;
                proof {
                    lemma_entry_within_total(debited, j as int);
                    lemma_entry_is_held(debited, j as int);
                    lemma_update(debited, j as int, (to_balance + value) as u128, *to);
                    assert forall|who: Address| #[trigger]
                        held(debited.update(j as int, (*to, (to_balance + value) as u128)), who)
                            == if who == *to {
                            (to_balance + value) as nat
                        } else {
                            held(debited, who)
                        } by {
                        lemma_update(debited, j as int, (to_balance + value) as u128, who);
                    }
                }
                self.balances[j] = (*to, to_balance + value);
            },
            None => {
                proof {
                    lemma_absent_holds_nothing(debited, *to);
                    lemma_push(debited, *to, value, *to);
                    assert forall|who: Address| #[trigger]
                        held(debited.push((*to, value)), who) == if who == *to {
                            value as nat
                        } else {
                            held(debited, who)
                        } by {
                        lemma_push(debited, *to, value, who);
                    }
                }
                self.balances.push((*to, value));
            },
        }
        proof {
            assert(self@.balances =~= old(self)@.moved(*from, *to, value as nat).balances);
        }
        Ok(Transfer { from: Some(*from), to: Some(*to), value })
    }

    /// Adds `value` to the supply and to what `to` holds. Nothing happens,
    /// and nothing is recorded, where `value` is zero.
    fn mint_inner(&mut self, to: Address, value: u128) -> (record: Option<Transfer>)
        requires
            old(self).wf(),
            old(self)@.supply + value <= u128::MAX,
        ensures
            final(self).wf(),
            final(self)@ == old(self)@.minted(to, value as nat),
            record == if value == 0 {
                None
            } else {
                Some(Transfer { from: None, to: Some(to), value })
            },
    {
        let ghost start = self.balances@;
        if value == 0 {
            proof {
                assert(self@.balances =~= old(self)@.minted(to, 0).balances);
            }
            return None;
        }
        match self.find_holder(&to) {
            Some(j) => {
                let to_balance: u128 = self.balances[j].1;
                proof {
                    lemma_entry_within_total(start, j as int);
                    lemma_entry_is_held(start, j as int);
                    lemma_update(start, j as int, (to_balance + value) as u128, to);
                    assert forall|who: Address| #[trigger]
                        held(start.update(j as int, (to, (to_balance + value) as u128)), who)
                            == if who == to {
                            (to_balance + value) as nat
                        } else {
                            held(start, who)
                        } by {
                        lemma_update(start, j as int, (to_balance + value) as u128, who);
                    }
                }
                self.balances[j] = (to, to_balance + value);
            },
            None => {
                proof {
                    lemma_absent_holds_nothing(start, to);
                    lemma_push(start, to, value, to);
                    assert forall|who: Address| #[trigger]
                        held(start.push((to, value)), who) == if who == to {
                            value as nat
                        } else {
                            held(start, who)
                        } by {
                        lemma_push(start, to, value, who);
                    }
                }
                self.balances.push((to, value));
            },
        }
        self.total_supply = self.total_supply + value;
        proof {
            assert(self@.balances =~= old(self)@.minted(to, value as nat).balances);
        }
        Some(Transfer { from: None, to: Some(to), value })
    }

    /// Issues `value` of new supply to `to`, for the owner of the ledger.
    ///
    /// Fails with `NotOwner` where `caller` is not the owner, else with
    /// `Overflow` where the supply would pass the largest `u128`, and
    /// then changes nothing. The record is `None` where `value` is zero.
    pub fn mint(&mut self, caller: Address, to: Address, value: u128) -> (r: Result<
        Option<Transfer>,
        MintError,
    >)
        requires
            old(self).wf(),
        ensures
            final(self).wf(),
            caller != old(self)@.owner ==> r == Err::<Option<Transfer>, MintError>(
                MintError::NotOwner,
            ) && final(self)@ == old(self)@,
            caller == old(self)@.owner && old(self)@.supply + value > u128::MAX ==> r == Err::<
                Option<Transfer>,
                MintError,
            >(MintError::Overflow) && final(self)@ == old(self)@,
            caller == old(self)@.owner && old(self)@.supply + value <= u128::MAX ==> r == Ok::<
                Option<Transfer>,
                MintError,
            >(if value == 0 {
                None
            } else {
                Some(Transfer { from: None, to: Some(to), value })
            }) && final(self)@ == old(self)@.minted(to, value as nat),
    {
        if !caller.same(&self.owner) {
            return Err(MintError::NotOwner);
        }
        if value > u128::MAX - self.total_supply {
            return Err(MintError::Overflow);
        }
        Ok(self.mint_inner(to, value))
    }

    /// Moves `value` from `caller` to `to`, or fails with
    /// `InsufficientBalance` and changes nothing where `caller` holds less.
    pub fn transfer(&mut self, caller: Address, to: Address, value: u128) -> (r: Result<
        Transfer,
        Error,
    >)
        requires
            old(self).wf(),
        ensures
            final(self).wf(),
            old(self)@.balances[caller] < value ==> r == Err::<Transfer, Error>(
                Error::InsufficientBalance,
            ) && final(self)@ == old(self)@,
            old(self)@.balances[caller] >= value ==> r == Ok::<Transfer, Error>(
                Transfer { from: Some(caller), to: Some(to), value },
            ) && final(self)@ == old(self)@.moved(caller, to, value as nat),
    {
        self.transfer_from_to(&caller, &to, value)
    }

    /// Moves `value` from `from` to `to` on behalf of `caller`, out of
    /// what `from` has granted to `caller`.
    ///
    /// Fails with `InsufficientAllowance` where less is granted, else with
    /// `InsufficientBalance` where `from` holds less, and then changes
    /// nothing. Otherwise the value moves and the allowance goes down by
    /// it.
    pub fn transfer_from(&mut self, caller: Address, from: Address, to: Address, value: u128) -> (r:
        Result<Transfer, Error>)
        requires
            old(self).wf(),
        ensures
            final(self).wf(),
            old(self)@.allowances[(from, caller)] < value ==> r == Err::<Transfer, Error>(
                Error::InsufficientAllowance,
            ) && final(self)@ == old(self)@,
            old(self)@.allowances[(from, caller)] >= value && old(self)@.balances[from] < value
                ==> r == Err::<Transfer, Error>(Error::InsufficientBalance) && final(self)@ == old(
                self,
            )@,
            old(self)@.allowances[(from, caller)] >= value && old(self)@.balances[from] >= value
                ==> r == Ok::<Transfer, Error>(
                Transfer { from: Some(from), to: Some(to), value },
            ) && final(self)@ == old(self)@.moved(from, to, value as nat).approved(
                from,
                caller,
                (old(self)@.allowances[(from, caller)] - value) as nat,
            ),
    {
        let allowance = self.allowance(from, caller);
        if allowance < value {
            return Err(Error::InsufficientAllowance);
        }
        match self.transfer_from_to(&from, &to, value) {
            Err(e) => Err(e),
            Ok(record) => {
                self.set_allowance(from, caller, allowance - value);
                Ok(record)
            },
        }
    }
}

/// A transfer between two accounts takes from the one what it gives to
/// the other and touches no third account; a transfer from an account to
/// itself changes no balance.
pub proof fn lemma_move_conserves(ledger: Ledger, from: Address, to: Address, value: nat)
    requires
        ledger.balances[from] >= value,
        ledger.balances.dom().contains(from),
        ledger.balances.dom().contains(to),
    ensures
        ledger.moved(from, to, value).supply == ledger.supply,
        from != to ==> ledger.moved(from, to, value).balances[from] == ledger.balances[from]
            - value && ledger.moved(from, to, value).balances[to] == ledger.balances[to] + value,
        from == to ==> ledger.moved(from, to, value).balances[from] == ledger.balances[from],
        forall|who: Address|
            who != from && who != to && ledger.balances.dom().contains(who) ==> ledger.moved(
                from,
                to,
                value,
            ).balances[who] == ledger.balances[who],
{
}

} // verus!
