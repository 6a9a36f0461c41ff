//! The membership store: which account holds which role, and until when.
//!
//! There is at most one grant for a role and an account. A grant carries an
//! expiry: 0 for a grant without limit, otherwise the instant from which the
//! grant is no longer honoured (the bound is exclusive). The store does not
//! look at the clock: a grant that has run out stays in place until it is
//! cleared.

use vstd::prelude::*;
use crate::assoc::{
    as_map, distinct_keys, key_at, lemma_absent, lemma_lookup, lemma_push, lemma_remove, lemma_update,
};
use crate::ident::{Address, Symbol};

verus! {

/// The grants in force: the expiry of each, by role and account.
pub type Grants = Map<(Seq<char>, Seq<char>), u64>;

/// Whether `account` is recorded as a member of `role`, expired or not.
pub open spec fn is_member(grants: Grants, role: Seq<char>, account: Seq<char>) -> bool {
    grants.contains_key((role, account))
}

/// The expiry recorded for `account` in `role`; 0 where there is no grant.
pub open spec fn expiry_of(grants: Grants, role: Seq<char>, account: Seq<char>) -> u64 {
    if grants.contains_key((role, account)) {
        grants[(role, account)]
    } else {
        0
    }
}

/// A grant with this expiry is honoured at the instant `now`.
pub open spec fn spec_live_at(expiry: u64, now: u64) -> bool {
    expiry == 0 || now < expiry
}

/// Whether a grant with this expiry is honoured at the instant `now`: one
/// without limit always is, any other strictly before its expiry.
#[verifier::when_used_as_spec(spec_live_at)]
pub fn live_at(expiry: u64, now: u64) -> (live: bool)
    ensures
        live == spec_live_at(expiry, now),
{
    expiry == 0 || now < expiry
}

/// The grants after taking in what a store holds about `account` in `role`:
/// the membership entry and the expiry entry, as far as they are there. Only
/// a membership that is stored as true counts; without an expiry entry the
/// grant is without limit.
pub open spec fn restored(
    grants: Grants,
    role: Seq<char>,
    account: Seq<char>,
    member: Option<bool>,
    expiry: Option<u64>,
) -> Grants {
    if member == Some(true) {
        grants.insert(
            (role, account),
            match expiry {
                Some(e) => e,
                None => 0,
            },
        )
    } else {
        grants
    }
}

/// One grant: `account` holds `role` until `expiry`.
#[derive(Debug)]
struct Grant {
    role: Symbol,
    account: Address,
    expiry: u64,
}

/// The store of grants.
#[derive(Debug)]
pub struct MembershipStore {
    grants: Vec<Grant>,
}

/// The key and the expiry of each grant, by name.
spec fn grant_pairs(grants: Seq<Grant>) -> Seq<((Seq<char>, Seq<char>), u64)> {
    grants.map_values(|g: Grant| ((g.role@, g.account@), g.expiry))
}

impl View for MembershipStore {
    type V = Grants;

    closed spec fn view(&self) -> Grants {
        as_map(grant_pairs(self.grants@))
    }
}

impl MembershipStore {
    /// No role and account have two grants.
    #[verifier::type_invariant]
    spec fn wf(&self) -> bool {
        distinct_keys(grant_pairs(self.grants@))
    }

    /// The store without any grant.
    pub fn new() -> (store: MembershipStore)
        ensures
            store@ == Grants::empty(),
    {
        let store = MembershipStore { grants: Vec::new() };
        store
    }

    /// The place of the grant of `role` to `account`, if there is one.
    fn find(&self, role: &Symbol, account: &Address) -> (place: Option<usize>)
        ensures
            match place {
                Some(i) => i < self.grants@.len() && self.grants@[i as int].role@ == role@
                    && self.grants@[i as int].account@ == account@ && self@.contains_key(
                    (role@, account@),
                ) && self@[(role@, account@)] == self.grants@[i as int].expiry,
                None => !self@.contains_key((role@, account@)),
            },
    {
        proof {
            use_type_invariant(self);
        }
        let ghost pairs = grant_pairs(self.grants@);
        let mut i: usize = 0;
        while i < self.grants.len()
            invariant
                distinct_keys(pairs),
                i <= self.grants@.len(),
                pairs == grant_pairs(self.grants@),
                forall|j: int| 0 <= j < i ==> #[trigger] key_at(pairs, j) != (role@, account@),
            decreases self.grants@.len() - i,
        {
            if self.grants[i].role == *role && self.grants[i].account == *account {
                proof {
                    lemma_lookup(pairs, i as int);
                }
                return Some(i);
            }
            i = i + 1;
        }
        proof {
            lemma_absent(pairs, (role@, account@));
        }
        None
    }

    /// Whether `account` is recorded as a member of `role`, expired or not.
    pub fn is_member(&self, role: &Symbol, account: &Address) -> (member: bool)
        ensures
            member == is_member(self@, role@, account@),
    {
        self.find(role, account).is_some()
    }

    /// The expiry recorded for `account` in `role`; 0 where there is no
    /// grant.
    pub fn get_expiry(&self, role: &Symbol, account: &Address) -> (expiry: u64)
        ensures
            expiry == expiry_of(self@, role@, account@),
    {
        match self.find(role, account) {
            Some(i) => self.grants[i].expiry,
            None => 0,
        }
    }

    /// Takes in what a store holds about `account` in `role`: the
    /// membership entry and the expiry entry, as far as they are there.
    pub fn restore(&mut self, role: Symbol, account: Address, member: Option<bool>, expiry: Option<u64>)
        ensures
            final(self)@ == restored(old(self)@, role@, account@, member, expiry),
    {
        match member {
            Some(true) => {
                match expiry {
                    Some(e) => self.set_grant(role, account, e),
                    None => self.set_grant(role, account, 0),
                }
            },
            _ => {},
        }
    }

    /// Grants `role` to `account` until `expiry`, in place of any grant that
    /// the account had for the role.
    pub fn set_grant(&mut self, role: Symbol, account: Address, expiry: u64)
        ensures
            final(self)@ == old(self)@.insert((role@, account@), expiry),
    {
        proof {
            use_type_invariant(&*self);
        }
        let ghost pairs = grant_pairs(self.grants@);
        let place = self.find(&role, &account);
        let mut grants: Vec<Grant> = Vec::new();
        std::mem::swap(&mut grants, &mut self.grants);
        match place {
            Some(i) => {
                proof {
                    lemma_update(pairs, i as int, expiry);
                    assert(grant_pairs(grants@.update(i as int, Grant { role, account, expiry }))
                        =~= pairs.update(i as int, (pairs[i as int].0, expiry)));
                }
                grants[i] = Grant { role, account, expiry };
            },
            None => {
                proof {
                    lemma_push(pairs, (role@, account@), expiry);
                    assert(grant_pairs(grants@.push(Grant { role, account, expiry })) =~= pairs.push(
                        ((role@, account@), expiry),
                    ));
                }
                grants.push(Grant { role, account, expiry });
            },
        }
        self.grants = grants;
    }

    /// Removes the grant of `role` to `account`. Where there is none,
    /// nothing changes.
    pub fn clear_grant(&mut self, role: &Symbol, account: &Address)
        ensures
            final(self)@ == old(self)@.remove((role@, account@)),
    {
        proof {
            use_type_invariant(&*self);
        }
        let ghost pairs = grant_pairs(self.grants@);
        match self.find(role, account) {
            Some(i) => {
                let mut grants: Vec<Grant> = Vec::new();
                std::mem::swap(&mut grants, &mut self.grants);
                proof {
                    lemma_remove(pairs, i as int);
                    assert(grant_pairs(grants@.remove(i as int)) =~= pairs.remove(i as int));
                }
                grants.remove(i);
                self.grants = grants;
            },
            None => {
            },
        }
    }
}

} // verus!
