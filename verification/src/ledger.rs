//! The ledger: the prepaid balance of each owning principal.
//!
//! The ledger is stored as a list of rows with pairwise-distinct owners and
//! is read through its abstract view, a map from principal to balance.  The
//! `total` of a ledger is the sum of every balance; the relay keeps that
//! total covered by the deposit purse at all times.

use vstd::prelude::*;
use crate::errors::Error;
use crate::identity::Principal;

verus! {

/// One row of the ledger: a principal and its prepaid balance.
#[derive(Clone, Copy, PartialEq, Eq, Structural, Debug)]
pub struct LedgerEntry {
    pub owner: Principal,
    pub balance: u64,
}

/// Prepaid balances, keyed by owning principal.
pub struct Ledger {
    entries: Vec<LedgerEntry>,
}

/// The balances a sequence of rows denotes.
pub open spec fn balances_of(s: Seq<LedgerEntry>) -> Map<Principal, u64>
    decreases s.len(),
{
    if s.len() == 0 {
        Map::empty()
    } else {
        balances_of(s.drop_last()).insert(s.last().owner, s.last().balance)
    }
}

/// The total value a sequence of rows promises.
pub open spec fn total_of(s: Seq<LedgerEntry>) -> int
    decreases s.len(),
{
    if s.len() == 0 {
        0
    } else {
        total_of(s.drop_last()) + s.last().balance
    }
}

/// No owner appears on two rows.
pub open spec fn distinct_owners(s: Seq<LedgerEntry>) -> bool {
    forall|i: int, j: int| 0 <= i < j < s.len() ==> s[i].owner != s[j].owner
}

/// The balances after an owner is enrolled: untouched when the owner already
/// has a row, extended by a zero balance otherwise.
pub open spec fn with_zero_entry(m: Map<Principal, u64>, owner: Principal) -> Map<Principal, u64> {
    if m.dom().contains(owner) {
        m
    } else {
        m.insert(owner, 0u64)
    }
}

/// An owner is in the denoted balances exactly when some row carries it.
proof fn lemma_membership(s: Seq<LedgerEntry>, owner: Principal)
    ensures
        balances_of(s).dom().contains(owner) <==> (exists|i: int|
            0 <= i < s.len() && s[i].owner == owner),
    decreases s.len(),
{
    if s.len() > 0 {
        lemma_membership(s.drop_last(), owner);
        if s.last().owner == owner {
            assert(s[s.len() - 1].owner == owner);
        } else if exists|i: int| 0 <= i < s.len() - 1 && s.drop_last()[i].owner == owner {
            let i = choose|i: int| 0 <= i < s.len() - 1 && s.drop_last()[i].owner == owner;
            assert(s[i].owner == owner);
        } else if exists|i: int| 0 <= i < s.len() && s[i].owner == owner {
            let i = choose|i: int| 0 <= i < s.len() && s[i].owner == owner;
            assert(s.drop_last()[i].owner == owner);
        }
    }
}

/// With distinct owners, the denoted balance of a row's owner is that row's
/// balance.
proof fn lemma_row_balance(s: Seq<LedgerEntry>, i: int)
    requires
        distinct_owners(s),
        0 <= i < s.len(),
    ensures
        balances_of(s)[s[i].owner] == s[i].balance,
    decreases s.len(),
{
    if i < s.len() - 1 {
        assert(s.drop_last()[i] == s[i]);
        lemma_row_balance(s.drop_last(), i);
    }
}

/// The total is never negative.
proof fn lemma_total_nonneg(s: Seq<LedgerEntry>)
    ensures
        total_of(s) >= 0,
    decreases s.len(),
{
    if s.len() > 0 {
        lemma_total_nonneg(s.drop_last());
    }
}

/// Each single balance is covered by the total.
proof fn lemma_row_le_total(s: Seq<LedgerEntry>, i: int)
    requires
        0 <= i < s.len(),
    ensures
        s[i].balance <= total_of(s),
    decreases s.len(),
{
    if i == s.len() - 1 {
        lemma_total_nonneg(s.drop_last());
    } else {
        assert(s.drop_last()[i] == s[i]);
        lemma_row_le_total(s.drop_last(), i);
    }
}

/// Appending a row extends the balances and adds its balance to the total.
proof fn lemma_push(s: Seq<LedgerEntry>, e: LedgerEntry)
    ensures
        balances_of(s.push(e)) == balances_of(s).insert(e.owner, e.balance),
        total_of(s.push(e)) == total_of(s) + e.balance,
{
    assert(s.push(e).drop_last() =~= s);
}

/// Replacing one row's balance updates the denoted balances pointwise and
/// shifts the total by the difference.
proof fn lemma_update(s: Seq<LedgerEntry>, i: int, v: u64)
    requires
        distinct_owners(s),
        0 <= i < s.len(),
    ensures
        balances_of(s.update(i, LedgerEntry { owner: s[i].owner, balance: v })) =~= balances_of(
            s,
        ).insert(s[i].owner, v),
        total_of(s.update(i, LedgerEntry { owner: s[i].owner, balance: v })) == total_of(s)
            - s[i].balance + v,
    decreases s.len(),
{
    let e = LedgerEntry { owner: s[i].owner, balance: v };
    let t = s.update(i, e);
    if i == s.len() - 1 {
        assert(t.drop_last() =~= s.drop_last());
    } else {
        assert(t.drop_last() =~= s.drop_last().update(i, e));
        assert(s.drop_last()[i] == s[i]);
        lemma_update(s.drop_last(), i, v);
    }
}

impl View for Ledger {
    type V = Map<Principal, u64>;

    closed spec fn view(&self) -> Map<Principal, u64> {
        balances_of(self.entries@)
    }
}

impl Ledger {
    /// Owners never share a row.
    pub closed spec fn wf(&self) -> bool {
        distinct_owners(self.entries@)
    }

    /// The sum of every balance the ledger promises.
    pub closed spec fn total(&self) -> int {
        total_of(self.entries@)
    }

    /// The balance an owner can draw on: zero when the owner has no row.
    pub open spec fn spec_read(&self, owner: Principal) -> u64 {
        if self@.dom().contains(owner) {
            self@[owner]
        } else {
            0u64
        }
    }

    /// The total covers every single balance and is never negative.
    pub proof fn lemma_total_covers(&self, owner: Principal)
        requires
            self.wf(),
        ensures
            0 <= self.spec_read(owner) <= self.total(),
    {
        lemma_total_nonneg(self.entries@);
        lemma_membership(self.entries@, owner);
        if self@.dom().contains(owner) {
            let i = choose|i: int|
                0 <= i < self.entries@.len() && self.entries@[i].owner == owner;
            lemma_row_balance(self.entries@, i);
            lemma_row_le_total(self.entries@, i);
        }
    }

    /// An empty ledger: no rows, no promised value.
    pub fn new() -> (l: Ledger)
        ensures
            l.wf(),
            l@ == Map::<Principal, u64>::empty(),
            l.total() == 0,
    {
        Ledger { entries: Vec::new() }
    }

    /// The index of an owner's row, if it has one.
    fn find(&self, owner: Principal) -> (r: Option<usize>)
        ensures
            match r {
                Some(i) => i < self.entries@.len() && self.entries@[i as int].owner == owner,
                None => forall|i: int|
                    0 <= i < self.entries@.len() ==> self.entries@[i].owner != owner,
            },
    {
        let mut k: usize = 0;
        while k < self.entries.len()
            invariant
                k <= self.entries@.len(),
                forall|i: int| 0 <= i < k ==> self.entries@[i].owner != owner,
            decreases self.entries@.len() - k,
        {
            if self.entries[k].owner == owner {
                return Some(k);
            }
            k = k + 1;
        }
        None
    }

    /// Whether an owner has a row.
    pub fn contains(&self, owner: Principal) -> (r: bool)
        ensures
            r == self@.dom().contains(owner),
    {
        proof {
            lemma_membership(self.entries@, owner);
        }
        self.find(owner).is_some()
    }

    /// The owner's balance; an owner without a row reads as zero.
    pub fn read(&self, owner: Principal) -> (r: u64)
        requires
            self.wf(),
        ensures
            r == self.spec_read(owner),
    {
        proof {
            lemma_membership(self.entries@, owner);
        }
        match self.find(owner) {
            Some(i) => {
                proof {
                    lemma_row_balance(self.entries@, i as int);
                }
                self.entries[i].balance
            },
            None => 0,
        }
    }

    /// Enrolls an owner: a missing row is created with balance zero, an
    /// existing one is left exactly as it is.
    pub fn ensure_entry(&mut self, owner: Principal)
        requires
            old(self).wf(),
        ensures
            final(self).wf(),
            final(self)@ == with_zero_entry(old(self)@, owner),
            final(self).total() == old(self).total(),
    {
        proof {
            lemma_membership(self.entries@, owner);
        }
        match self.find(owner) {
            Some(_) => (),
            None => {
                proof {
                    lemma_push(self.entries@, LedgerEntry { owner, balance: 0u64 });
                }
                self.entries.push(LedgerEntry { owner, balance: 0u64 });
            },
        }
    }

    /// Adds `amount` to the owner's balance, creating the row with `amount`
    /// when the owner had none.  The bound on the incoming total is a machine
    /// limit: the grown total must still fit the balance type.
    pub fn credit(&mut self, owner: Principal, amount: u64)
        requires
            old(self).wf(),
            old(self).total() + amount <= u64::MAX,
        ensures
            final(self).wf(),
            final(self)@ == old(self)@.insert(
                owner,
                (old(self).spec_read(owner) + amount) as u64,
            ),
            final(self).total() == old(self).total() + amount,
    {
        proof {
            lemma_membership(self.entries@, owner);
        }
        match self.find(owner) {
            Some(i) => {
                proof {
                    lemma_row_balance(self.entries@, i as int);
                    lemma_row_le_total(self.entries@, i as int);
                    lemma_update(self.entries@, i as int, (self.entries@[i as int].balance + amount) as u64);
                }
                let bal = self.entries[i].balance;
                self.entries.set(i, LedgerEntry { owner, balance: bal + amount });
            },
            None => {
                proof {
                    lemma_total_nonneg(self.entries@);
                    lemma_push(self.entries@, LedgerEntry { owner, balance: amount });
                }
                self.entries.push(LedgerEntry { owner, balance: amount });
            },
        }
    }

    /// Takes `amount` from the owner's balance as one checked step: when the
    /// balance does not cover it, nothing changes and the debit is refused.
    pub fn debit(&mut self, owner: Principal, amount: u64) -> (r: Result<(), Error>)
        requires
            old(self).wf(),
            old(self)@.dom().contains(owner),
        ensures
            final(self).wf(),
            old(self)@[owner] < amount ==> r == Err::<(), Error>(Error::InsufficientBalance)
                && *final(self) == *old(self),
            old(self)@[owner] >= amount ==> r == Ok::<(), Error>(()) && final(self)@ == old(
                self,
            )@.insert(owner, (old(self)@[owner] - amount) as u64) && final(self).total() == old(
                self,
            ).total() - amount,
    {
        proof {
            lemma_membership(self.entries@, owner);
        }
        match self.find(owner) {
            Some(i) => {
                proof {
                    lemma_row_balance(self.entries@, i as int);
                }
                let bal = self.entries[i].balance;
                if bal < amount {
                    Err(Error::InsufficientBalance)
                } else {
                    proof {
                        lemma_update(self.entries@, i as int, (self.entries@[i as int].balance - amount) as u64);
                    }
                    self.entries.set(i, LedgerEntry { owner, balance: bal - amount });
                    Ok(())
                }
            },
            None => Err(Error::InsufficientBalance),
        }
    }
}

} // verus!
