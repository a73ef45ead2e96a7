//! The registry: which principal backs which callable target.
//!
//! Stored as a list of rows with pairwise-distinct targets and read through
//! its abstract view, a map from target to owning principal.  An entry is
//! only ever created or re-pointed, never removed.

use vstd::prelude::*;
use crate::errors::Error;
use crate::identity::Principal;
use crate::identity::TargetId;

verus! {

/// One row of the registry: a target and the principal that pays for it.
#[derive(Clone, Copy, PartialEq, Eq, Structural, Debug)]
pub struct RegistryEntry {
    pub target: TargetId,
    pub owner: Principal,
}

/// Registered targets, keyed by target identity.
pub struct Registry {
    entries: Vec<RegistryEntry>,
}

/// The ownership a sequence of rows denotes.
pub open spec fn owners_of(s: Seq<RegistryEntry>) -> Map<TargetId, Principal>
    decreases s.len(),
{
    if s.len() == 0 {
        Map::empty()
    } else {
        owners_of(s.drop_last()).insert(s.last().target, s.last().owner)
    }
}

/// No target appears on two rows.
pub open spec fn distinct_targets(s: Seq<RegistryEntry>) -> bool {
    forall|i: int, j: int| 0 <= i < j < s.len() ==> s[i].target != s[j].target
}

/// A target is in the denoted ownership exactly when some row carries it.
proof fn lemma_membership(s: Seq<RegistryEntry>, target: TargetId)
    ensures
        owners_of(s).dom().contains(target) <==> (exists|i: int|
            0 <= i < s.len() && s[i].target == target),
    decreases s.len(),
{
    if s.len() > 0 {
        lemma_membership(s.drop_last(), target);
        if s.last().target == target {
            assert(s[s.len() - 1].target == target);
        } else if exists|i: int| 0 <= i < s.len() - 1 && s.drop_last()[i].target == target {
            let i = choose|i: int| 0 <= i < s.len() - 1 && s.drop_last()[i].target == target;
            assert(s[i].target == target);
        } else if exists|i: int| 0 <= i < s.len() && s[i].target == target {
            let i = choose|i: int| 0 <= i < s.len() && s[i].target == target;
            assert(s.drop_last()[i].target == target);
        }
    }
}

/// With distinct targets, the denoted owner of a row's target is that row's
/// owner.
proof fn lemma_row_owner(s: Seq<RegistryEntry>, i: int)
    requires
        distinct_targets(s),
        0 <= i < s.len(),
    ensures
        owners_of(s)[s[i].target] == s[i].owner,
    decreases s.len(),
{
    if i < s.len() - 1 {
        assert(s.drop_last()[i] == s[i]);
        lemma_row_owner(s.drop_last(), i);
    }
}

/// Appending a row extends the denoted ownership.
proof fn lemma_push(s: Seq<RegistryEntry>, e: RegistryEntry)
    ensures
        owners_of(s.push(e)) == owners_of(s).insert(e.target, e.owner),
{
    assert(s.push(e).drop_last() =~= s);
}

/// Re-pointing one row's owner updates the denoted ownership pointwise.
proof fn lemma_update(s: Seq<RegistryEntry>, i: int, owner: Principal)
    requires
        distinct_targets(s),
        0 <= i < s.len(),
    ensures
        owners_of(s.update(i, RegistryEntry { target: s[i].target, owner })) =~= owners_of(
            s,
        ).insert(s[i].target, owner),
    decreases s.len(),
{
    let e = RegistryEntry { target: s[i].target, owner };
    let t = s.update(i, e);
    if i == s.len() - 1 {
        assert(t.drop_last() =~= s.drop_last());
    } else {
        assert(t.drop_last() =~= s.drop_last().update(i, e));
        assert(s.drop_last()[i] == s[i]);
        lemma_update(s.drop_last(), i, owner);
    }
}

impl View for Registry {
    type V = Map<TargetId, Principal>;

    closed spec fn view(&self) -> Map<TargetId, Principal> {
        owners_of(self.entries@)
    }
}

impl Registry {
    /// Targets never share a row.
    pub closed spec fn wf(&self) -> bool {
        distinct_targets(self.entries@)
    }

    /// An empty registry.
    pub fn new() -> (r: Registry)
        ensures
            r.wf(),
            r@ == Map::<TargetId, Principal>::empty(),
    {
        Registry { entries: Vec::new() }
    }

    /// The index of a target's row, if it has one.
    fn find(&self, target: TargetId) -> (r: Option<usize>)
        ensures
            match r {
                Some(i) => i < self.entries@.len() && self.entries@[i as int].target == target,
                None => forall|i: int|
                    0 <= i < self.entries@.len() ==> self.entries@[i].target != target,
            },
    {
        let mut k: usize = 0;
        while k < self.entries.len()
            invariant
                k <= self.entries@.len(),
                forall|i: int| 0 <= i < k ==> self.entries@[i].target != target,
            decreases self.entries@.len() - k,
        {
            if self.entries[k].target == target {
                return Some(k);
            }
            k = k + 1;
        }
        None
    }

    /// Whether a target is registered.
    pub fn contains(&self, target: TargetId) -> (r: bool)
        ensures
            r == self@.dom().contains(target),
    {
        proof {
            lemma_membership(self.entries@, target);
        }
        self.find(target).is_some()
    }

    /// The principal responsible for a target's costs; an unknown target is
    /// refused.
    pub fn resolve(&self, target: TargetId) -> (r: Result<Principal, Error>)
        requires
            self.wf(),
        ensures
            self@.dom().contains(target) ==> r == Ok::<Principal, Error>(self@[target]),
            !self@.dom().contains(target) ==> r == Err::<Principal, Error>(Error::Unregistered),
    {
        proof {
            lemma_membership(self.entries@, target);
        }
        match self.find(target) {
            Some(i) => {
                proof {
                    lemma_row_owner(self.entries@, i as int);
                }
                Ok(self.entries[i].owner)
            },
            None => Err(Error::Unregistered),
        }
    }

    /// Binds a target to an owner, overwriting any earlier binding: a target
    /// may be re-pointed to a different paying principal.
    pub fn put(&mut self, target: TargetId, owner: Principal)
        requires
            old(self).wf(),
        ensures
            final(self).wf(),
            final(self)@ == old(self)@.insert(target, owner),
    {
        proof {
            lemma_membership(self.entries@, target);
        }
        match self.find(target) {
            Some(i) => {
                proof {
                    lemma_update(self.entries@, i as int, owner);
                }
                self.entries.set(i, RegistryEntry { target, owner });
            },
            None => {
                proof {
                    lemma_push(self.entries@, RegistryEntry { target, owner });
                }
                self.entries.push(RegistryEntry { target, owner });
            },
        }
    }
}

} // verus!
