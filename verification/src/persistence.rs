//! What holds between the access-control state and a key-value store that
//! keeps it.
//!
//! The store holds a state as its image: one entry per fact. The laws say
//! that the journal of a call is exactly what takes the image of the state
//! before the call to the image of the state after it, that the image loses
//! nothing, that what is read back from it is what was there, and that a
//! call depends on a handful of entries only.

use vstd::prelude::*;
use crate::events::EventView;
use crate::ident::root_role;
use crate::membership::Grants;
use crate::model::{Operation, State};
use crate::registry::Hierarchy;
use crate::storage::{
    address_at, admin_writes, bool_at, creation_writes, grant_writes, has, initialization_writes,
    removal_writes, replayed, symbol_at, u64_at, DataKeyView, ValueView, WriteView,
};

verus! {

/// The writes that a call adds to the journal.
pub open spec fn writes_of(s: State, op: Operation, now: u64) -> Seq<WriteView> {
    s.apply(op, now).journal.skip(s.journal.len() as int)
}

/// The journal only grows, and it carries every change: a store that holds
/// the state before a call holds the state after it once the writes that
/// the call has added are carried out, in order.
pub proof fn lemma_journal_carries_every_change(s: State, op: Operation, now: u64)
    ensures
        s.journal.is_prefix_of(s.apply(op, now).journal),
        replayed(s.image(), writes_of(s, op, now)) == s.apply(op, now).image(),
{
    let added = writes_of(s, op, now);
    assert(added =~= match op {
        Operation::Initialize { admin } if !s.initialized => initialization_writes(admin)
            + creation_writes(root_role(), root_role()) + grant_writes(root_role(), admin, 0),
        Operation::CreateRole { caller, role, admin_role } if s.create_role_outcome(
            caller,
            role,
            admin_role,
            now,
        ) is Ok => creation_writes(role, admin_role),
        Operation::SetRoleAdmin { caller, role, admin_role } if s.set_role_admin_outcome(
            caller,
            role,
            admin_role,
            now,
        ) is Ok => admin_writes(role, admin_role),
        Operation::GrantRole { caller, role, account, expiry } if s.grant_role_outcome(
            caller,
            role,
            expiry,
            now,
        ) is Ok => grant_writes(role, account, expiry),
        Operation::RevokeRole { caller, role, account } if s.revoke_role_outcome(caller, role, now) is Ok
            => removal_writes(role, account),
        Operation::CleanupExpiredRole { role, account } if s.cleanup_due(role, account, now)
            => removal_writes(role, account),
        _ => Seq::empty(),
    });
    reveal_with_fuel(replayed, 7);
}

/// What the store holds of a state, entry by entry: the initialization
/// mark and the deployer once there are any; for a role that exists, its
/// mark and its admin; for a grant, the membership and the expiry; and
/// nothing else.
pub proof fn lemma_image_entries(s: State, role: Seq<char>, account: Seq<char>)
    ensures
        s.image().contains_key(DataKeyView::Initialized) == s.initialized,
        s.initialized ==> s.image()[DataKeyView::Initialized] == ValueView::Bool(true),
        s.image().contains_key(DataKeyView::Deployer) == (s.deployer is Some),
        s.deployer is Some ==> s.image()[DataKeyView::Deployer] == ValueView::Address(s.deployer->0),
        s.image().contains_key(DataKeyView::RoleExists(role)) == s.role_exists(role),
        s.image().contains_key(DataKeyView::RoleAdmin(role)) == s.role_exists(role),
        s.role_exists(role) ==> s.image()[DataKeyView::RoleExists(role)] == ValueView::Bool(true)
            && s.image()[DataKeyView::RoleAdmin(role)] == ValueView::Symbol(s.role_admin(role)),
        s.image().contains_key(DataKeyView::RoleMember(role, account)) == s.is_member(role, account),
        s.image().contains_key(DataKeyView::RoleExpiry(role, account)) == s.is_member(role, account),
        s.is_member(role, account) ==> s.image()[DataKeyView::RoleMember(role, account)]
            == ValueView::Bool(true) && s.image()[DataKeyView::RoleExpiry(role, account)]
            == ValueView::U64(s.role_expiry(role, account)),
{
}

/// The store that holds a state is never damaged: it holds no admin for a
/// role that it does not mark as existing.
pub proof fn lemma_image_has_no_admin_without_role(s: State, role: Seq<char>)
    ensures
        has(s.image(), DataKeyView::RoleExists(role)) || symbol_at(
            s.image(),
            DataKeyView::RoleAdmin(role),
        ) is None,
{
    lemma_image_entries(s, role, Seq::empty());
}

/// The store loses nothing: two states that are held by the same entries
/// agree on the initialization, the deployer, the roles with their admins
/// and the grants with their expiries.
pub proof fn lemma_image_tells_states_apart(s: State, t: State)
    requires
        s.image() == t.image(),
    ensures
        s.initialized == t.initialized,
        s.deployer == t.deployer,
        s.roles == t.roles,
        s.grants == t.grants,
{
    lemma_image_entries(s, Seq::empty(), Seq::empty());
    lemma_image_entries(t, Seq::empty(), Seq::empty());
    assert forall|r: Seq<char>| s.roles.contains_key(r) == t.roles.contains_key(r) by {
        lemma_image_entries(s, r, Seq::empty());
        lemma_image_entries(t, r, Seq::empty());
    }
    assert forall|r: Seq<char>| s.roles.contains_key(r) implies s.roles[r] == t.roles[r] by {
        lemma_image_entries(s, r, Seq::empty());
        lemma_image_entries(t, r, Seq::empty());
    }
    assert forall|k: (Seq<char>, Seq<char>)| s.grants.contains_key(k) == t.grants.contains_key(k) by {
        lemma_image_entries(s, k.0, k.1);
        lemma_image_entries(t, k.0, k.1);
    }
    assert forall|k: (Seq<char>, Seq<char>)| s.grants.contains_key(k) implies s.grants[k] == t.grants[k] by {
        lemma_image_entries(s, k.0, k.1);
        lemma_image_entries(t, k.0, k.1);
    }
}

/// The records that a call adds to the audit trail.
pub open spec fn records_of(s: State, op: Operation, now: u64) -> Seq<EventView> {
    s.apply(op, now).trail.skip(s.trail.len() as int)
}

/// Two states hold the same about `role`: whether it exists, and its admin.
pub open spec fn same_role(s: State, t: State, role: Seq<char>) -> bool {
    s.role_exists(role) == t.role_exists(role) && s.role_admin(role) == t.role_admin(role)
}

/// Two states hold the same about `account` in `role`: whether it is a
/// member, and the expiry.
pub open spec fn same_grant(s: State, t: State, role: Seq<char>, account: Seq<char>) -> bool {
    s.is_member(role, account) == t.is_member(role, account) && s.role_expiry(role, account)
        == t.role_expiry(role, account)
}

/// Two states hold the same about everything that `op` looks at: the
/// initialization mark for an initialization; the roles named and the
/// caller's grant of the root role for a creation or a change of admin; the
/// role and the caller's grant of its admin role for a grant or a
/// revocation; the grant itself for a cleanup or a question.
pub open spec fn same_reads(s: State, t: State, op: Operation) -> bool {
    match op {
        Operation::Initialize { .. } => s.initialized == t.initialized,
        Operation::CreateRole { caller, role, admin_role } => same_grant(s, t, root_role(), caller)
            && same_role(s, t, role) && same_role(s, t, admin_role),
        Operation::SetRoleAdmin { caller, role, admin_role } => same_grant(s, t, root_role(), caller)
            && same_role(s, t, role) && same_role(s, t, admin_role),
        Operation::GrantRole { caller, role, .. } => same_role(s, t, role) && same_grant(
            s,
            t,
            s.role_admin(role),
            caller,
        ),
        Operation::RevokeRole { caller, role, .. } => same_role(s, t, role) && same_grant(
            s,
            t,
            s.role_admin(role),
            caller,
        ),
        Operation::CleanupExpiredRole { role, account } => same_grant(s, t, role, account),
        Operation::HasRole { role, account } => same_grant(s, t, role, account),
        Operation::RequireRole { role, account } => same_grant(s, t, role, account),
    }
}

/// Every call is local: what it answers, what it writes and what it records
/// depends on the few entries that it looks at and on nothing else in the
/// state. So a call costs the same however many roles and grants there are,
/// and it can be decided on a state that holds those entries alone.
pub proof fn lemma_calls_are_local(s: State, t: State, op: Operation, now: u64)
    requires
        same_reads(s, t, op),
    ensures
        writes_of(s, op, now) == writes_of(t, op, now),
        records_of(s, op, now) == records_of(t, op, now),
        match op {
            Operation::Initialize { .. } => true,
            Operation::CreateRole { caller, role, admin_role } => s.create_role_outcome(
                caller,
                role,
                admin_role,
                now,
            ) == t.create_role_outcome(caller, role, admin_role, now),
            Operation::SetRoleAdmin { caller, role, admin_role } => s.set_role_admin_outcome(
                caller,
                role,
                admin_role,
                now,
            ) == t.set_role_admin_outcome(caller, role, admin_role, now),
            Operation::GrantRole { caller, role, expiry, .. } => s.grant_role_outcome(
                caller,
                role,
                expiry,
                now,
            ) == t.grant_role_outcome(caller, role, expiry, now),
            Operation::RevokeRole { caller, role, .. } => s.revoke_role_outcome(caller, role, now)
                == t.revoke_role_outcome(caller, role, now),
            Operation::CleanupExpiredRole { role, account } => s.cleanup_due(role, account, now)
                == t.cleanup_due(role, account, now),
            Operation::HasRole { role, account } => s.has_role(role, account, now) == t.has_role(
                role,
                account,
                now,
            ),
            Operation::RequireRole { role, account } => s.require_role(role, account, now)
                == t.require_role(role, account, now),
        },
{
}

/// Every question is local: whether an account holds a role, and until
/// when, depends on that one grant; whether a role exists, and under which
/// admin, on that one role.
pub proof fn lemma_questions_are_local(s: State, t: State, role: Seq<char>, account: Seq<char>, now: u64)
    ensures
        same_grant(s, t, role, account) ==> s.has_role(role, account, now) == t.has_role(role, account, now)
            && s.require_role(role, account, now) == t.require_role(role, account, now)
            && s.role_expiry(role, account) == t.role_expiry(role, account),
        same_role(s, t, role) ==> s.role_exists(role) == t.role_exists(role) && s.role_admin(role)
            == t.role_admin(role),
{
}

/// What is read back from the store is what was there: taking in the
/// entries that hold a state gives its initialization, its deployer, and,
/// for whichever role and account are asked for, the role with its admin
/// and the grant with its expiry.
pub proof fn lemma_store_reads_back(
    s: State,
    roles: Hierarchy,
    grants: Grants,
    role: Seq<char>,
    account: Seq<char>,
)
    ensures
        has(s.image(), DataKeyView::Initialized) == s.initialized,
        address_at(s.image(), DataKeyView::Deployer) == s.deployer,
        crate::registry::restored(
            roles,
            role,
            has(s.image(), DataKeyView::RoleExists(role)),
            symbol_at(s.image(), DataKeyView::RoleAdmin(role)),
        ) == (if s.role_exists(role) {
            roles.insert(role, s.role_admin(role))
        } else {
            roles
        }),
        crate::membership::restored(
            grants,
            role,
            account,
            bool_at(s.image(), DataKeyView::RoleMember(role, account)),
            u64_at(s.image(), DataKeyView::RoleExpiry(role, account)),
        ) == (if s.is_member(role, account) {
            grants.insert((role, account), s.role_expiry(role, account))
        } else {
            grants
        }),
{
    lemma_image_entries(s, role, account);
}

} // verus!
