//! The ledger store: per-account balances and the total supply.
//!
//! The store keeps one entry per registered account and maintains the
//! central invariant that the sum of all balances equals the total supply.
//! Deposits and withdrawals are transactional: every guard is checked
//! before any mutation, so a rejected call leaves the store untouched.

use vstd::prelude::*;

use crate::errors::TokenError;

verus! {

/// Each account identifier occurs in at most one entry.
pub open spec fn keys_unique(s: Seq<(u64, u128)>) -> bool {
    forall|i: int, j: int|
        0 <= i < j < s.len() ==> (#[trigger] s[i]).0 != (#[trigger] s[j]).0
}

/// The sum of the balances of all entries.
pub open spec fn sum_balances(s: Seq<(u64, u128)>) -> int
    decreases s.len(),
{
    if s.len() == 0 {
        0
    } else {
        sum_balances(s.drop_last()) + s.last().1
    }
}

/// Appending an entry adds its balance to the sum.
proof fn lemma_sum_push(s: Seq<(u64, u128)>, e: (u64, u128))
    ensures
        sum_balances(s.push(e)) == sum_balances(s) + e.1,
{
    assert(s.push(e).drop_last() =~= s);
}

/// Replacing the entry at `i` changes the sum by the change in its balance.
proof fn lemma_sum_update(s: Seq<(u64, u128)>, i: int, e: (u64, u128))
    requires
        0 <= i < s.len(),
    ensures
        sum_balances(s.update(i, e)) == sum_balances(s) - s[i].1 + e.1,
    decreases s.len(),
{
    if i == s.len() - 1 {
        assert(s.update(i, e).drop_last() =~= s.drop_last());
        assert(s.update(i, e).last() == e);
    } else {
        assert(s.update(i, e).drop_last() =~= s.drop_last().update(i, e));
        assert(s.update(i, e).last() == s.last());
        lemma_sum_update(s.drop_last(), i, e);
    }
}

/// The sum of balances is never negative.
proof fn lemma_sum_nonneg(s: Seq<(u64, u128)>)
    ensures
        sum_balances(s) >= 0,
    decreases s.len(),
{
    if s.len() > 0 {
        lemma_sum_nonneg(s.drop_last());
    }
}

/// The sum dominates each single balance.
proof fn lemma_sum_ge_entry(s: Seq<(u64, u128)>, i: int)
    requires
        0 <= i < s.len(),
    ensures
        sum_balances(s) >= s[i].1,
    decreases s.len(),
{
    if i == s.len() - 1 {
        lemma_sum_nonneg(s.drop_last());
    } else {
        lemma_sum_ge_entry(s.drop_last(), i);
        lemma_sum_nonneg(s.drop_last());
    }
}

/// The sum dominates the balances of any two distinct entries together.
proof fn lemma_sum_ge_two_entries(s: Seq<(u64, u128)>, i: int, j: int)
    requires
        0 <= i < s.len(),
        0 <= j < s.len(),
        i != j,
    ensures
        sum_balances(s) >= s[i].1 + s[j].1,
    decreases s.len(),
{
    if i == s.len() - 1 {
        lemma_sum_ge_entry(s.drop_last(), j);
    } else if j == s.len() - 1 {
        lemma_sum_ge_entry(s.drop_last(), i);
    } else {
        lemma_sum_ge_two_entries(s.drop_last(), i, j);
    }
}

/// Per-account balances together with the total supply they add up to.
pub struct Ledger {
    accounts: Vec<(u64, u128)>,
    total_supply: u128,
}

impl Ledger {
    /// Well-formedness: account identifiers are distinct and the balances
    /// add up to the total supply.
    pub closed spec fn wf(self) -> bool {
        &&& keys_unique(self.accounts@)
        &&& sum_balances(self.accounts@) == self.total_supply
    }

    /// Whether `account_id` is registered with the store.
    pub closed spec fn spec_registered(self, account_id: u64) -> bool {
        exists|i: int|
            0 <= i < self.accounts@.len() && (#[trigger] self.accounts@[i]).0 == account_id
    }

    spec fn spec_index_of(self, account_id: u64) -> int {
        choose|i: int|
            0 <= i < self.accounts@.len() && (#[trigger] self.accounts@[i]).0 == account_id
    }

    /// The balance of `account_id`; zero if it is not registered.
    pub closed spec fn spec_balance_of(self, account_id: u64) -> u128 {
        if self.spec_registered(account_id) {
            self.accounts@[self.spec_index_of(account_id)].1
        } else {
            0
        }
    }

    /// The total supply of the token.
    pub closed spec fn spec_total_supply(self) -> u128 {
        self.total_supply
    }

    /// An unregistered account holds nothing.
    pub proof fn lemma_balance_unregistered(self, account_id: u64)
        requires
            !self.spec_registered(account_id),
        ensures
            self.spec_balance_of(account_id) == 0,
    {
    }

    /// The central invariant, observed per account: since the balances
    /// add up to the total supply, no single balance exceeds it.
    pub proof fn lemma_balance_le_supply(self, account_id: u64)
        requires
            self.wf(),
        ensures
            self.spec_balance_of(account_id) <= self.spec_total_supply(),
    {
        if self.spec_registered(account_id) {
            let i = self.spec_index_of(account_id);
            assert(0 <= i < self.accounts@.len() && self.accounts@[i].0 == account_id);
            lemma_sum_ge_entry(self.accounts@, i);
        }
    }

    /// The error with which a deposit of `amount` into `account_id` fails.
    pub open spec fn deposit_err(self, account_id: u64, amount: u128) -> TokenError {
        if !self.spec_registered(account_id) {
            TokenError::NotRegistered
        } else if self.spec_balance_of(account_id) + amount > u128::MAX {
            TokenError::BalanceOverflow
        } else {
            TokenError::TotalSupplyOverflow
        }
    }

    /// The error with which a withdrawal of `amount` from `account_id` fails.
    pub open spec fn withdraw_err(self, account_id: u64, amount: u128) -> TokenError {
        if !self.spec_registered(account_id) {
            TokenError::NotRegistered
        } else {
            TokenError::InsufficientBalance
        }
    }

    /// The error with which a transfer fails.
    pub open spec fn transfer_err(self, sender_id: u64, receiver_id: u64, amount: u128) -> TokenError {
        if sender_id == receiver_id {
            TokenError::SenderIsReceiver
        } else if amount == 0 {
            TokenError::ZeroAmount
        } else if !self.spec_registered(sender_id) {
            TokenError::NotRegistered
        } else if self.spec_balance_of(sender_id) < amount {
            TokenError::InsufficientBalance
        } else {
            TokenError::NotRegistered
        }
    }

    /// An empty store: no registered account, zero supply.
    pub fn new() -> (l: Ledger)
        ensures
            l.wf(),
            l.spec_total_supply() == 0,
            forall|a: u64| !(#[trigger] l.spec_registered(a)),
    {
        Ledger { accounts: Vec::new(), total_supply: 0 }
    }

    fn find_index(&self, account_id: u64) -> (r: Option<usize>)
        ensures
            match r {
                Some(i) => i < self.accounts@.len() && self.accounts@[i as int].0 == account_id,
                None => !self.spec_registered(account_id),
            },
    {
        let n = self.accounts.len();
        let mut i: usize = 0;
        while i < n
            invariant
                n == self.accounts@.len(),
                i <= n,
                forall|k: int| 0 <= k < i ==> (#[trigger] self.accounts@[k]).0 != account_id,
            decreases n - i,
        {
            if self.accounts[i].0 == account_id {
                return Some(i);
            }
            i = i + 1;
        }
        None
    }

    /// Whether `account_id` is registered.
    pub fn is_registered(&self, account_id: u64) -> (r: bool)
        ensures
            r == self.spec_registered(account_id),
    {
        self.find_index(account_id).is_some()
    }

    /// The balance of `account_id`, zero if unregistered.
    pub fn balance_of(&self, account_id: u64) -> (r: u128)
        requires
            self.wf(),
        ensures
            r == self.spec_balance_of(account_id),
    {
        match self.find_index(account_id) {
            Some(i) => {
                proof {
                    self.lemma_index_agrees(i as int, account_id);
                }
                self.accounts[i].1
            },
            None => 0,
        }
    }

    /// The total supply.
    pub fn total_supply(&self) -> (r: u128)
        ensures
            r == self.spec_total_supply(),
    {
        self.total_supply
    }

    /// With unique keys, any entry holding `account_id` is the entry that
    /// `spec_index_of` picks, so its balance is `spec_balance_of`.
    proof fn lemma_index_agrees(self, i: int, account_id: u64)
        requires
            keys_unique(self.accounts@),
            0 <= i < self.accounts@.len(),
            self.accounts@[i].0 == account_id,
        ensures
            self.spec_registered(account_id),
            self.spec_index_of(account_id) == i,
            self.spec_balance_of(account_id) == self.accounts@[i].1,
    {
        assert(self.spec_registered(account_id));
        let j = self.spec_index_of(account_id);
        assert(0 <= j < self.accounts@.len() && self.accounts@[j].0 == account_id);
        if i != j {
            if i < j {
                assert(self.accounts@[i].0 != self.accounts@[j].0);
            } else {
                assert(self.accounts@[j].0 != self.accounts@[i].0);
            }
        }
    }

    /// Replacing the balance of the entry at `i` (keeping its key) preserves
    /// uniqueness and the registered set, and moves only that balance.
    proof fn lemma_update_entry(pre: Ledger, post: Ledger, i: int, nb: u128)
        requires
            keys_unique(pre.accounts@),
            0 <= i < pre.accounts@.len(),
            post.accounts@ == pre.accounts@.update(i, (pre.accounts@[i].0, nb)),
        ensures
            keys_unique(post.accounts@),
            sum_balances(post.accounts@) == sum_balances(pre.accounts@) - pre.accounts@[i].1 + nb,
            forall|b: u64|
                #[trigger] post.spec_registered(b) == pre.spec_registered(b),
            post.spec_balance_of(pre.accounts@[i].0) == nb,
            forall|b: u64|
                b != pre.accounts@[i].0 ==> #[trigger] post.spec_balance_of(b)
                    == pre.spec_balance_of(b),
    {
        let s0 = pre.accounts@;
        let s1 = post.accounts@;
        let a = s0[i].0;
        assert(forall|k: int| 0 <= k < s1.len() ==> (#[trigger] s1[k]).0 == s0[k].0);
        assert forall|p: int, q: int| 0 <= p < q < s1.len() implies (#[trigger] s1[p]).0 != (
        #[trigger] s1[q]).0 by {
            assert(s0[p].0 != s0[q].0);
        }
        lemma_sum_update(s0, i, (a, nb));
        assert forall|b: u64| #[trigger] post.spec_registered(b) == pre.spec_registered(b) by {
            if pre.spec_registered(b) {
                let k = choose|k: int| 0 <= k < s0.len() && (#[trigger] s0[k]).0 == b;
                assert(s1[k].0 == b);
                assert(post.spec_registered(b));
            }
            if post.spec_registered(b) {
                let k = choose|k: int| 0 <= k < s1.len() && (#[trigger] s1[k]).0 == b;
                assert(s0[k].0 == b);
                assert(pre.spec_registered(b));
            }
        }
        post.lemma_index_agrees(i, a);
        assert forall|b: u64| b != a implies #[trigger] post.spec_balance_of(b)
            == pre.spec_balance_of(b) by {
            if pre.spec_registered(b) {
                let k = choose|k: int| 0 <= k < s0.len() && (#[trigger] s0[k]).0 == b;
                pre.lemma_index_agrees(k, b);
                assert(s1[k].0 == b);
                if k == i {
                    assert(s0[k].0 == a);
                }
                post.lemma_index_agrees(k, b);
            }
        }
    }

    /// Registers `account_id` with a zero starting balance. Fails, changing
    /// nothing, if the account is already registered.
    pub fn register(&mut self, account_id: u64) -> (r: Result<(), TokenError>)
        requires
            old(self).wf(),
        ensures
            final(self).wf(),
            r is Ok <==> !old(self).spec_registered(account_id),
            r matches Err(e) ==> e == TokenError::AlreadyRegistered && *final(self) == *old(self),
            r is Ok ==> {
                &&& forall|b: u64|
                    #[trigger] final(self).spec_registered(b) == (old(self).spec_registered(b)
                        || b == account_id)
                &&& final(self).spec_balance_of(account_id) == 0
                &&& forall|b: u64|
                    b != account_id ==> #[trigger] final(self).spec_balance_of(b) == old(self).spec_balance_of(b)
                &&& final(self).spec_total_supply() == old(self).spec_total_supply()
            },
    {
        match self.find_index(account_id) {
            Some(_) => Err(TokenError::AlreadyRegistered),
            None => {
                let ghost pre = *self;
                self.accounts.push((account_id, 0));
                proof {
                    let s0 = pre.accounts@;
                    let s1 = self.accounts@;
                    assert(s1 == s0.push((account_id, 0u128)));
                    lemma_sum_push(s0, (account_id, 0u128));
                    assert forall|p: int, q: int| 0 <= p < q < s1.len() implies (
                    #[trigger] s1[p]).0 != (#[trigger] s1[q]).0 by {
                        if q == s0.len() {
                            assert(s1[p] == s0[p]);
                            assert(!pre.spec_registered(account_id));
                            assert(s0[p].0 != account_id);
                        } else {
                            assert(s1[p] == s0[p]);
                            assert(s1[q] == s0[q]);
                        }
                    }
                    assert forall|b: u64| #[trigger] self.spec_registered(b) == (
                    pre.spec_registered(b) || b == account_id) by {
                        if pre.spec_registered(b) {
                            let k = choose|k: int|
                                0 <= k < s0.len() && (#[trigger] s0[k]).0 == b;
                            assert(s1[k].0 == b);
                            assert(self.spec_registered(b));
                        }
                        if b == account_id {
                            assert(s1[s0.len() as int].0 == b);
                            assert(self.spec_registered(b));
                        }
                        if self.spec_registered(b) && b != account_id {
                            let k = choose|k: int|
                                0 <= k < s1.len() && (#[trigger] s1[k]).0 == b;
                            assert(k < s0.len());
                            assert(s0[k].0 == b);
                            assert(pre.spec_registered(b));
                        }
                    }
                    self.lemma_index_agrees(s0.len() as int, account_id);
                    assert forall|b: u64| b != account_id implies
                        #[trigger] self.spec_balance_of(b) == pre.spec_balance_of(b) by {
                        if pre.spec_registered(b) {
                            let k = choose|k: int|
                                0 <= k < s0.len() && (#[trigger] s0[k]).0 == b;
                            pre.lemma_index_agrees(k, b);
                            assert(s1[k].0 == b);
                            self.lemma_index_agrees(k, b);
                        } else {
                            assert(!self.spec_registered(b));
                        }
                    }
                }
                Ok(())
            },
        }
    }

    /// Deposits `amount` into `account_id` and grows the total supply by
    /// the same amount. Fails, changing nothing, if the account is not
    /// registered or either addition would overflow.
    pub fn deposit(&mut self, account_id: u64, amount: u128) -> (r: Result<(), TokenError>)
        requires
            old(self).wf(),
        ensures
            final(self).wf(),
            r is Ok <==> {
                &&& old(self).spec_registered(account_id)
                &&& old(self).spec_balance_of(account_id) + amount <= u128::MAX
                &&& old(self).spec_total_supply() + amount <= u128::MAX
            },
            r matches Err(e) ==> *final(self) == *old(self) && e == old(self).deposit_err(
                account_id,
                amount,
            ),
            r is Ok ==> {
                &&& forall|b: u64|
                    #[trigger] final(self).spec_registered(b) == old(self).spec_registered(b)
                &&& final(self).spec_balance_of(account_id) == old(self).spec_balance_of(
                    account_id,
                ) + amount
                &&& forall|b: u64|
                    b != account_id ==> #[trigger] final(self).spec_balance_of(b) == old(self).spec_balance_of(b)
                &&& final(self).spec_total_supply() == old(self).spec_total_supply() + amount
            },
    {
        match self.find_index(account_id) {
            None => Err(TokenError::NotRegistered),
            Some(i) => {
                proof {
                    self.lemma_index_agrees(i as int, account_id);
                }
                let bal = self.accounts[i].1;
                if amount > u128::MAX - bal {
                    return Err(TokenError::BalanceOverflow);
                }
                if amount > u128::MAX - self.total_supply {
                    return Err(TokenError::TotalSupplyOverflow);
                }
                let ghost pre = *self;
                self.accounts[i] = (account_id, bal + amount);
                self.total_supply = self.total_supply + amount;
                proof {
                    Self::lemma_update_entry(pre, *self, i as int, (bal + amount) as u128);
                }
                Ok(())
            },
        }
    }

    /// Withdraws `amount` from `account_id` and shrinks the total supply by
    /// the same amount. Fails, changing nothing, if the account is not
    /// registered or holds less than `amount`.
    pub fn withdraw(&mut self, account_id: u64, amount: u128) -> (r: Result<(), TokenError>)
        requires
            old(self).wf(),
        ensures
            final(self).wf(),
            r is Ok <==> {
                &&& old(self).spec_registered(account_id)
                &&& old(self).spec_balance_of(account_id) >= amount
            },
            r matches Err(e) ==> *final(self) == *old(self) && e == old(self).withdraw_err(
                account_id,
                amount,
            ),
            r is Ok ==> {
                &&& forall|b: u64|
                    #[trigger] final(self).spec_registered(b) == old(self).spec_registered(b)
                &&& final(self).spec_balance_of(account_id) == old(self).spec_balance_of(
                    account_id,
                ) - amount
                &&& forall|b: u64|
                    b != account_id ==> #[trigger] final(self).spec_balance_of(b) == old(self).spec_balance_of(b)
                &&& final(self).spec_total_supply() == old(self).spec_total_supply() - amount
            },
    {
        match self.find_index(account_id) {
            None => Err(TokenError::NotRegistered),
            Some(i) => {
                proof {
                    self.lemma_index_agrees(i as int, account_id);
                }
                let bal = self.accounts[i].1;
                if bal < amount {
                    return Err(TokenError::InsufficientBalance);
                }
                proof {
                    lemma_sum_ge_entry(self.accounts@, i as int);
                }
                let ghost pre = *self;
                self.accounts[i] = (account_id, bal - amount);
                self.total_supply = self.total_supply - amount;
                proof {
                    Self::lemma_update_entry(pre, *self, i as int, (bal - amount) as u128);
                }
                Ok(())
            },
        }
    }

    /// Moves `amount` from `sender_id` to `receiver_id`; the total supply is
    /// unchanged. Fails, changing nothing, if sender and receiver coincide,
    /// the amount is zero, either account is not registered, or the sender
    /// holds less than `amount`. The receiver's balance cannot overflow:
    /// both balances are bounded by the total supply.
    pub fn transfer(&mut self, sender_id: u64, receiver_id: u64, amount: u128) -> (r: Result<
        (),
        TokenError,
    >)
        requires
            old(self).wf(),
        ensures
            final(self).wf(),
            r is Ok <==> {
                &&& sender_id != receiver_id
                &&& amount > 0
                &&& old(self).spec_registered(sender_id)
                &&& old(self).spec_balance_of(sender_id) >= amount
                &&& old(self).spec_registered(receiver_id)
            },
            r matches Err(e) ==> *final(self) == *old(self) && e == old(self).transfer_err(
                sender_id,
                receiver_id,
                amount,
            ),
            r is Ok ==> {
                &&& forall|b: u64|
                    #[trigger] final(self).spec_registered(b) == old(self).spec_registered(b)
                &&& final(self).spec_balance_of(sender_id) == old(self).spec_balance_of(
                    sender_id,
                ) - amount
                &&& final(self).spec_balance_of(receiver_id) == old(self).spec_balance_of(
                    receiver_id,
                ) + amount
                &&& forall|b: u64|
                    b != sender_id && b != receiver_id ==> #[trigger] final(self).spec_balance_of(b) == old(self).spec_balance_of(b)
                &&& final(self).spec_total_supply() == old(self).spec_total_supply()
            },
    {
        if sender_id == receiver_id {
            return Err(TokenError::SenderIsReceiver);
        }
        if amount == 0 {
            return Err(TokenError::ZeroAmount);
        }
        match self.find_index(sender_id) {
            None => Err(TokenError::NotRegistered),
            Some(i) => {
                proof {
                    self.lemma_index_agrees(i as int, sender_id);
                }
                let sender_bal = self.accounts[i].1;
                if sender_bal < amount {
                    return Err(TokenError::InsufficientBalance);
                }
                match self.find_index(receiver_id) {
                    None => Err(TokenError::NotRegistered),
                    Some(j) => {
                        proof {
                            self.lemma_index_agrees(j as int, receiver_id);
                            lemma_sum_ge_two_entries(self.accounts@, i as int, j as int);
                        }
                        let receiver_bal = self.accounts[j].1;
                        let ghost pre = *self;
                        self.accounts[i] = (sender_id, sender_bal - amount);
                        let ghost mid = *self;
                        proof {
                            Self::lemma_update_entry(
                                pre,
                                mid,
                                i as int,
                                (sender_bal - amount) as u128,
                            );
                            mid.lemma_index_agrees(j as int, receiver_id);
                        }
                        self.accounts[j] = (receiver_id, receiver_bal + amount);
                        proof {
                            Self::lemma_update_entry(
                                mid,
                                *self,
                                j as int,
                                (receiver_bal + amount) as u128,
                            );
                        }
                        Ok(())
                    },
                }
            },
        }
    }
}

} // verus!
