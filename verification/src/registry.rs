//! The role registry: which roles exist, and which role administers each.
//!
//! A role exists exactly when the registry holds an entry for it, and the
//! entry carries the role's admin. So a role can never be without an admin,
//! nor an admin mapping without its role. Entries are never removed: a role,
//! once created, exists for good.
//!
//! The registry is bookkeeping only. Who may create a role or change an
//! admin is decided by the controller.
//!
//! Apart from the root role, no role administers itself, but nothing keeps
//! two roles from administering each other. Should the holders of both be
//! lost, only a holder of the root role can put that right.

use vstd::prelude::*;
use crate::assoc::{as_map, distinct_keys, key_at, lemma_absent, lemma_lookup, lemma_push, lemma_update};
use crate::errors::RbacError;
use crate::ident::{default_admin_role, root_role, symbol_name, Symbol};

verus! {

/// The roles of a hierarchy, each with its admin.
pub type Hierarchy = Map<Seq<char>, Seq<char>>;

/// The admin of `role`: the one recorded for it, or the root role where
/// `role` does not exist.
pub open spec fn admin_of(roles: Hierarchy, role: Seq<char>) -> Seq<char> {
    if roles.contains_key(role) {
        roles[role]
    } else {
        root_role()
    }
}

/// `role` names itself as its admin without being the root role.
pub open spec fn invalid_self_admin(role: Seq<char>, admin_role: Seq<char>) -> bool {
    role == admin_role && role != root_role()
}

/// Whether `role` can be created under `admin_role`, and if not, why not.
pub open spec fn creation_outcome(
    roles: Hierarchy,
    role: Seq<char>,
    admin_role: Seq<char>,
) -> Result<(), RbacError> {
    if roles.contains_key(role) {
        Err(RbacError::RoleAlreadyExists)
    } else if invalid_self_admin(role, admin_role) {
        Err(RbacError::InvalidSelfAdmin)
    } else if !roles.contains_key(admin_role) {
        Err(RbacError::RoleNotFound)
    } else {
        Ok(())
    }
}

/// Whether the admin of `role` can be changed to `admin_role`, and if not,
/// why not.
pub open spec fn admin_change_outcome(
    roles: Hierarchy,
    role: Seq<char>,
    admin_role: Seq<char>,
) -> Result<(), RbacError> {
    if !roles.contains_key(role) || !roles.contains_key(admin_role) {
        Err(RbacError::RoleNotFound)
    } else if invalid_self_admin(role, admin_role) {
        Err(RbacError::InvalidSelfAdmin)
    } else {
        Ok(())
    }
}

/// Whether a store that holds the existence mark `exists` and the admin
/// entry `admin` for a role is damaged: it holds an admin for a role that
/// it does not mark as existing. No store that this engine has written is
/// in that state, and no role may be created on one that is.
pub fn admin_without_role(exists: bool, admin: &Option<Symbol>) -> (corrupt: bool)
    ensures
        corrupt == (!exists && admin is Some),
{
    !exists && admin.is_some()
}

/// The hierarchy after taking in what a store holds about `role`: its
/// existence mark, and its admin entry if there is one. A role whose mark is
/// missing is left out; one without an admin entry gets the root role.
pub open spec fn restored(
    roles: Hierarchy,
    role: Seq<char>,
    exists: bool,
    admin: Option<Seq<char>>,
) -> Hierarchy {
    if exists {
        roles.insert(
            role,
            match admin {
                Some(a) => a,
                None => root_role(),
            },
        )
    } else {
        roles
    }
}

/// One role with its admin.
#[derive(Debug)]
struct RoleEntry {
    role: Symbol,
    admin: Symbol,
}

/// The registry of roles.
#[derive(Debug)]
pub struct RoleRegistry {
    entries: Vec<RoleEntry>,
}

/// The role and the admin of each entry, by name.
spec fn role_pairs(entries: Seq<RoleEntry>) -> Seq<(Seq<char>, Seq<char>)> {
    entries.map_values(|e: RoleEntry| (e.role@, e.admin@))
}

impl View for RoleRegistry {
    type V = Hierarchy;

    closed spec fn view(&self) -> Hierarchy {
        as_map(role_pairs(self.entries@))
    }
}

impl RoleRegistry {
    /// No role has two entries.
    #[verifier::type_invariant]
    spec fn wf(&self) -> bool {
        distinct_keys(role_pairs(self.entries@))
    }

    /// The registry without any role.
    pub fn new() -> (registry: RoleRegistry)
        ensures
            registry@ == Hierarchy::empty(),
    {
        let registry = RoleRegistry { entries: Vec::new() };
        registry
    }

    /// The place of the entry for `role`, if there is one.
    fn find(&self, role: &Symbol) -> (place: Option<usize>)
        ensures
            match place {
                Some(i) => i < self.entries@.len() && self.entries@[i as int].role@ == role@
                    && self@.contains_key(role@) && self@[role@] == self.entries@[i as int].admin@,
                None => !self@.contains_key(role@),
            },
    {
        proof {
            use_type_invariant(self);
        }
        let ghost pairs = role_pairs(self.entries@);
        let mut i: usize = 0;
        while i < self.entries.len()
            invariant
                distinct_keys(pairs),
                i <= self.entries@.len(),
                pairs == role_pairs(self.entries@),
                forall|j: int| 0 <= j < i ==> #[trigger] key_at(pairs, j) != role@,
            decreases self.entries@.len() - i,
        {
            if self.entries[i].role == *role {
                proof {
                    lemma_lookup(pairs, i as int);
                }
                return Some(i);
            }
            i = i + 1;
        }
        proof {
            lemma_absent(pairs, role@);
        }
        None
    }

    /// Whether `role` exists.
    pub fn role_exists(&self, role: &Symbol) -> (exists: bool)
        ensures
            exists == self@.contains_key(role@),
    {
        self.find(role).is_some()
    }

    /// The admin of `role`; the root role where `role` does not exist.
    pub fn get_role_admin(&self, role: &Symbol) -> (admin: Symbol)
        ensures
            admin@ == admin_of(self@, role@),
    {
        match self.find(role) {
            Some(i) => self.entries[i].admin.clone(),
            None => default_admin_role(),
        }
    }

    /// Takes in what a store holds about `role`: whether its existence
    /// mark is there, and its admin entry if there is one. No rule is
    /// checked: whoever keeps the store answers for it, and asks
    /// `admin_without_role` first where a damaged store must stop the call.
    pub fn restore(&mut self, role: Symbol, exists: bool, admin: Option<Symbol>)
        ensures
            final(self)@ == restored(old(self)@, role@, exists, symbol_name(admin)),
    {
        if exists {
            match admin {
                Some(a) => self.put(role, a),
                None => self.put(role, default_admin_role()),
            }
        }
    }

    /// Records `admin` as the admin of `role`, creating the role where it
    /// does not exist.
    pub(crate) fn put(&mut self, role: Symbol, admin: Symbol)
        ensures
            final(self)@ == old(self)@.insert(role@, admin@),
    {
        proof {
            use_type_invariant(&*self);
        }
        let ghost pairs = role_pairs(self.entries@);
        let place = self.find(&role);
        let mut entries: Vec<RoleEntry> = Vec::new();
        std::mem::swap(&mut entries, &mut self.entries);
        match place {
            Some(i) => {
                proof {
                    lemma_update(pairs, i as int, admin@);
                    assert(role_pairs(entries@.update(i as int, RoleEntry { role, admin })) =~= pairs.update(
                        i as int,
                        (pairs[i as int].0, admin@),
                    ));
                }
                entries[i] = RoleEntry { role, admin };
            },
            None => {
                proof {
                    lemma_push(pairs, role@, admin@);
                    assert(role_pairs(entries@.push(RoleEntry { role, admin })) =~= pairs.push(
                        (role@, admin@),
                    ));
                }
                entries.push(RoleEntry { role, admin });
            },
        }
        self.entries = entries;
    }

    /// Creates `role` under `admin_role`.
    ///
    /// Refused with `RoleAlreadyExists` where `role` exists; else with
    /// `InvalidSelfAdmin` where a role other than the root role is to
    /// administer itself; else with `RoleNotFound` where `admin_role` does
    /// not exist.
    pub fn create_role(&mut self, role: Symbol, admin_role: Symbol) -> (result: Result<(), RbacError>)
        ensures
            result == creation_outcome(old(self)@, role@, admin_role@),
            final(self)@ == if result is Ok {
                old(self)@.insert(role@, admin_role@)
            } else {
                old(self)@
            },
    {
        if self.role_exists(&role) {
            return Err(RbacError::RoleAlreadyExists);
        }
        if role == admin_role && role != default_admin_role() {
            return Err(RbacError::InvalidSelfAdmin);
        }
        if !self.role_exists(&admin_role) {
            return Err(RbacError::RoleNotFound);
        }
        self.put(role, admin_role);
        Ok(())
    }

    /// Makes `admin_role` the admin of `role` and returns the admin that it
    /// replaces.
    ///
    /// Refused with `RoleNotFound` where either role does not exist; else
    /// with `InvalidSelfAdmin` where a role other than the root role is to
    /// administer itself.
    pub fn set_role_admin(
        &mut self,
        role: Symbol,
        admin_role: Symbol,
    ) -> (result: Result<Symbol, RbacError>)
        ensures
            match result {
                Ok(previous) => admin_change_outcome(old(self)@, role@, admin_role@) is Ok
                    && previous@ == old(self)@[role@] && final(self)@ == old(self)@.insert(
                    role@,
                    admin_role@,
                ),
                Err(e) => admin_change_outcome(old(self)@, role@, admin_role@) == Err::<(), RbacError>(e)
                    && final(self)@ == old(self)@,
            },
    {
        if !self.role_exists(&role) {
            return Err(RbacError::RoleNotFound);
        }
        if !self.role_exists(&admin_role) {
            return Err(RbacError::RoleNotFound);
        }
        if role == admin_role && role != default_admin_role() {
            return Err(RbacError::InvalidSelfAdmin);
        }
        let previous = self.get_role_admin(&role);
        self.put(role, admin_role);
        Ok(previous)
    }
}

} // verus!
