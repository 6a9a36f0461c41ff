//! What holds of the access-control state whatever is called on it.
//!
//! The laws are stated over the mathematical state and the functions that
//! describe the operations. The controller's operations are proved to do
//! exactly what those functions say, so every law holds of the controller.

use vstd::prelude::*;
use crate::errors::RbacError;
use crate::ident::root_role;
use crate::model::{Call, Operation, State};
use crate::registry::{creation_outcome, Hierarchy};

verus! {

/// The caller on whose behalf `op` is made, where it has one.
pub open spec fn caller_of(op: Operation) -> Option<Seq<char>> {
    match op {
        Operation::Initialize { .. } => None,
        Operation::CreateRole { caller, .. } => Some(caller),
        Operation::SetRoleAdmin { caller, .. } => Some(caller),
        Operation::GrantRole { caller, .. } => Some(caller),
        Operation::RevokeRole { caller, .. } => Some(caller),
        Operation::CleanupExpiredRole { .. } => None,
        Operation::HasRole { .. } => None,
        Operation::RequireRole { .. } => None,
    }
}

/// Before initialization the hierarchy is well-formed.
pub proof fn lemma_empty_state_is_well_formed()
    ensures
        State::empty().inv(),
{
}

/// No call takes a well-formed hierarchy to one that is not: every role
/// keeps an admin that exists, no role but the root role comes to administer
/// itself, and no role is granted that does not exist.
pub proof fn lemma_call_keeps_well_formed(s: State, op: Operation, now: u64)
    requires
        s.inv(),
    ensures
        s.apply(op, now).inv(),
{
}

/// No sequence of calls takes a well-formed hierarchy to one that is not.
pub proof fn lemma_calls_keep_well_formed(s: State, calls: Seq<Call>)
    requires
        s.inv(),
    ensures
        s.run(calls).inv(),
    decreases calls.len(),
{
    if calls.len() > 0 {
        lemma_calls_keep_well_formed(s, calls.drop_last());
        lemma_call_keeps_well_formed(s.run(calls.drop_last()), calls.last().op, calls.last().now);
    }
}

/// Whatever is called from the start, the hierarchy stays well-formed.
pub proof fn lemma_reachable_states_are_well_formed(calls: Seq<Call>)
    ensures
        State::empty().run(calls).inv(),
{
    lemma_calls_keep_well_formed(State::empty(), calls);
}

/// Initialization gives the root role to the admin and to nobody else: from
/// the state in which nothing exists, the admin holds the root role at
/// every instant afterwards, no other account holds it at any, and the root
/// role is its own admin.
pub proof fn lemma_initialization_gives_root_to_admin_only(admin: Seq<char>, other: Seq<char>, t: u64)
    ensures
        State::empty().initialize(admin).has_role(root_role(), admin, t),
        other != admin ==> !State::empty().initialize(admin).has_role(root_role(), other, t),
        State::empty().initialize(admin).role_exists(root_role()),
        State::empty().initialize(admin).role_admin(root_role()) == root_role(),
        State::empty().initialize(admin).deployer == Some(admin),
{
}

/// A role that has been created successfully exists.
pub proof fn lemma_created_role_exists(
    s: State,
    caller: Seq<char>,
    role: Seq<char>,
    admin_role: Seq<char>,
    now: u64,
)
    requires
        s.create_role_outcome(caller, role, admin_role, now) is Ok,
    ensures
        s.create_role(caller, role, admin_role, now).role_exists(role),
        s.create_role(caller, role, admin_role, now).role_admin(role) == admin_role,
{
}

/// No call removes a role.
pub proof fn lemma_call_keeps_roles(s: State, op: Operation, now: u64, role: Seq<char>)
    requires
        s.role_exists(role),
    ensures
        s.apply(op, now).role_exists(role),
{
}

/// A role that exists keeps existing, whatever is called afterwards.
pub proof fn lemma_role_exists_forever(s: State, calls: Seq<Call>, role: Seq<char>)
    requires
        s.role_exists(role),
    ensures
        s.run(calls).role_exists(role),
    decreases calls.len(),
{
    if calls.len() > 0 {
        lemma_role_exists_forever(s, calls.drop_last(), role);
        lemma_call_keeps_roles(s.run(calls.drop_last()), calls.last().op, calls.last().now, role);
    }
}

/// In the registry, a role that exists cannot be created again, whatever
/// admin is named for it.
pub proof fn lemma_existing_role_is_not_created_again(
    roles: Hierarchy,
    role: Seq<char>,
    admin_role: Seq<char>,
)
    requires
        roles.contains_key(role),
    ensures
        creation_outcome(roles, role, admin_role) == Err::<(), RbacError>(RbacError::RoleAlreadyExists),
{
}

/// Creating a role is not idempotent: once a role has been created, a
/// holder of the root role who asks to create it again, at any later point
/// and with any admin, is refused with `RoleAlreadyExists`.
pub proof fn lemma_second_creation_is_refused(
    s: State,
    caller: Seq<char>,
    role: Seq<char>,
    admin_role: Seq<char>,
    now: u64,
    between: Seq<Call>,
    second_caller: Seq<char>,
    second_admin_role: Seq<char>,
    later: u64,
)
    requires
        s.create_role_outcome(caller, role, admin_role, now) is Ok,
        s.create_role(caller, role, admin_role, now).run(between).has_role(root_role(), second_caller, later),
    ensures
        s.create_role(caller, role, admin_role, now).run(between).create_role_outcome(
            second_caller,
            role,
            second_admin_role,
            later,
        ) == Err::<(), RbacError>(RbacError::RoleAlreadyExists),
{
    lemma_created_role_exists(s, caller, role, admin_role, now);
    lemma_role_exists_forever(s.create_role(caller, role, admin_role, now), between, role);
}

/// A role is created under an admin role that exists, and under no other:
/// a holder of the root role who names another role as admin that does not
/// exist, for a role that does not exist either, is refused with
/// `RoleNotFound`.
pub proof fn lemma_admin_role_must_exist(
    s: State,
    caller: Seq<char>,
    role: Seq<char>,
    admin_role: Seq<char>,
    now: u64,
)
    requires
        s.has_role(root_role(), caller, now),
        !s.role_exists(role),
        !s.role_exists(admin_role),
        role != admin_role,
    ensures
        s.create_role_outcome(caller, role, admin_role, now) == Err::<(), RbacError>(RbacError::RoleNotFound),
        s.create_role(caller, role, admin_role, now) == s,
{
}

/// A grant must run out in the future or not at all: an admin of a role
/// who grants it until an instant that is not later than the current one
/// is refused with `InvalidExpiry`, and one who grants it without limit, or
/// until a later instant, is not refused.
pub proof fn lemma_expiry_must_lie_ahead(
    s: State,
    caller: Seq<char>,
    role: Seq<char>,
    account: Seq<char>,
    expiry: u64,
    now: u64,
)
    requires
        s.role_exists(role),
        s.has_role(s.role_admin(role), caller, now),
    ensures
        expiry != 0 && expiry <= now ==> s.grant_role_outcome(caller, role, expiry, now) == Err::<
            (),
            RbacError,
        >(RbacError::InvalidExpiry) && s.grant_role(caller, role, account, expiry, now) == s,
        expiry == 0 || expiry > now ==> s.grant_role_outcome(caller, role, expiry, now) is Ok,
{
}

/// A revocation takes the role away for good and touches nothing else:
/// after it, the account holds the role at no instant, and every other
/// grant is honoured as before.
pub proof fn lemma_revocation_takes_the_role_away(
    s: State,
    caller: Seq<char>,
    role: Seq<char>,
    account: Seq<char>,
    now: u64,
    other_role: Seq<char>,
    other_account: Seq<char>,
    t: u64,
)
    requires
        s.revoke_role_outcome(caller, role, now) is Ok,
    ensures
        !s.revoke_role(caller, role, account, now).has_role(role, account, t),
        !s.revoke_role(caller, role, account, now).is_member(role, account),
        s.revoke_role(caller, role, account, now).role_expiry(role, account) == 0,
        (other_role, other_account) != (role, account) ==> s.revoke_role(caller, role, account, now).has_role(
            other_role,
            other_account,
            t,
        ) == s.has_role(other_role, other_account, t),
{
}

/// A grant is honoured exactly until its expiry: after a successful grant,
/// the account holds the role at an instant `t` if and only if the grant is
/// without limit or `t` is strictly before the expiry.
pub proof fn lemma_grant_is_honoured_until_expiry(
    s: State,
    caller: Seq<char>,
    role: Seq<char>,
    account: Seq<char>,
    expiry: u64,
    now: u64,
    t: u64,
)
    requires
        s.grant_role_outcome(caller, role, expiry, now) is Ok,
    ensures
        s.grant_role(caller, role, account, expiry, now).has_role(role, account, t) == (expiry == 0 || t
            < expiry),
        s.grant_role(caller, role, account, expiry, now).role_expiry(role, account) == expiry,
{
}

/// The expiry is an exclusive bound: a role granted at `now` until `now + 1`
/// is held at `now` and no longer at `now + 1`.
pub proof fn lemma_expiry_is_exclusive(
    s: State,
    caller: Seq<char>,
    role: Seq<char>,
    account: Seq<char>,
    now: u64,
)
    requires
        now < u64::MAX,
        s.grant_role_outcome(caller, role, (now + 1) as u64, now) is Ok,
    ensures
        s.grant_role(caller, role, account, (now + 1) as u64, now).has_role(role, account, now),
        !s.grant_role(caller, role, account, (now + 1) as u64, now).has_role(
            role,
            account,
            (now + 1) as u64,
        ),
{
}

/// Asking whether a role is held changes nothing, however often it is asked
/// and whether or not the grant has run out: after any number of such
/// questions the state is what it was, and so are the membership and the
/// expiry of every account in every role.
pub proof fn lemma_asking_changes_nothing(s: State, questions: Seq<Call>)
    requires
        forall|i: int| 0 <= i < questions.len() ==> (#[trigger] questions[i]).op.is_question(),
    ensures
        s.run(questions) == s,
    decreases questions.len(),
{
    if questions.len() > 0 {
        lemma_asking_changes_nothing(s, questions.drop_last());
    }
}

/// A grant does not come back: an account that holds a role at some instant
/// under the grants as they stand has held it at every earlier instant
/// under the same grants.
pub proof fn lemma_held_role_was_held_before(
    s: State,
    role: Seq<char>,
    account: Seq<char>,
    earlier: u64,
    later: u64,
)
    requires
        earlier <= later,
        s.has_role(role, account, later),
    ensures
        s.has_role(role, account, earlier),
{
}

/// A grant that has run out is no longer honoured, and stays recorded with
/// its expiry all the same: asking whether the role is held removes nothing.
pub proof fn lemma_expired_grant_stays_recorded(s: State, role: Seq<char>, account: Seq<char>, now: u64)
    requires
        s.is_member(role, account),
        s.role_expiry(role, account) != 0,
        now >= s.role_expiry(role, account),
    ensures
        !s.has_role(role, account, now),
        s.require_role(role, account, now) == Err::<(), RbacError>(RbacError::NotAuthorized),
        s.cleanup_due(role, account, now),
{
}

/// Cleanup is idempotent. Where it removes a grant, the account is no
/// longer a member, and a second cleanup, at whatever instant, removes
/// nothing and changes nothing. Where it removes nothing, the same holds of
/// a second cleanup at the same instant.
pub proof fn lemma_cleanup_is_idempotent(s: State, role: Seq<char>, account: Seq<char>, now: u64, again: u64)
    ensures
        s.cleanup_due(role, account, now) ==> {
            let cleaned = s.cleanup_expired_role(role, account, now);
            &&& !cleaned.is_member(role, account)
            &&& cleaned.role_expiry(role, account) == 0
            &&& !cleaned.cleanup_due(role, account, again)
            &&& cleaned.cleanup_expired_role(role, account, again) == cleaned
        },
        !s.cleanup_due(role, account, now) ==> {
            let same = s.cleanup_expired_role(role, account, now);
            &&& same == s
            &&& !same.cleanup_due(role, account, now)
        },
{
}

/// Cleanup never takes away a role that is held: what it removes is not
/// honoured at that instant, and every other grant stays as it is.
pub proof fn lemma_cleanup_removes_only_what_ran_out(
    s: State,
    role: Seq<char>,
    account: Seq<char>,
    now: u64,
    other_role: Seq<char>,
    other_account: Seq<char>,
    t: u64,
)
    ensures
        s.cleanup_due(role, account, now) ==> !s.has_role(role, account, now),
        s.has_role(role, account, now) ==> s.cleanup_expired_role(role, account, now) == s,
        (other_role, other_account) != (role, account) ==> s.cleanup_expired_role(
            role,
            account,
            now,
        ).has_role(other_role, other_account, t) == s.has_role(other_role, other_account, t),
{
}

/// No role is created as its own admin: a holder of the root role who asks
/// to create a new role under itself is refused with `InvalidSelfAdmin`,
/// unless the role is the root role.
pub proof fn lemma_self_created_role_is_rejected(s: State, caller: Seq<char>, role: Seq<char>, now: u64)
    requires
        s.has_role(root_role(), caller, now),
        !s.role_exists(role),
        role != root_role(),
    ensures
        s.create_role_outcome(caller, role, role, now) == Err::<(), RbacError>(RbacError::InvalidSelfAdmin),
        s.create_role(caller, role, role, now) == s,
{
}

/// Asked to create a role under itself, the controller refuses, whatever
/// the role and whoever asks: a role that exists, the root role among them,
/// is not created again, a new role other than the root role may not
/// administer itself, and the root role, where it does not exist, has no
/// admin to be created under.
pub proof fn lemma_role_is_not_created_under_itself(s: State, caller: Seq<char>, role: Seq<char>, now: u64)
    ensures
        s.create_role_outcome(caller, role, role, now) is Err,
        s.create_role(caller, role, role, now) == s,
        s.has_role(root_role(), caller, now) ==> s.create_role_outcome(caller, role, role, now) == (
        if s.role_exists(role) {
            Err::<(), RbacError>(RbacError::RoleAlreadyExists)
        } else if role != root_role() {
            Err::<(), RbacError>(RbacError::InvalidSelfAdmin)
        } else {
            Err::<(), RbacError>(RbacError::RoleNotFound)
        }),
{
}

/// A role other than the root role cannot be made its own admin: a holder
/// of the root role who asks for it is refused with `InvalidSelfAdmin`. The
/// root role alone may be given itself as admin.
pub proof fn lemma_self_admin_is_rejected(s: State, caller: Seq<char>, role: Seq<char>, now: u64)
    requires
        s.has_role(root_role(), caller, now),
        s.role_exists(role),
    ensures
        role != root_role() ==> s.set_role_admin_outcome(caller, role, role, now) == Err::<(), RbacError>(
            RbacError::InvalidSelfAdmin,
        ),
        role == root_role() ==> s.set_role_admin_outcome(caller, role, role, now) is Ok,
{
}

/// Granting and revoking a role that does not exist is refused with
/// `RoleNotFound`, whoever asks.
pub proof fn lemma_unknown_role_is_not_granted_or_revoked(
    s: State,
    caller: Seq<char>,
    role: Seq<char>,
    account: Seq<char>,
    expiry: u64,
    now: u64,
)
    requires
        !s.role_exists(role),
    ensures
        s.grant_role_outcome(caller, role, expiry, now) == Err::<(), RbacError>(RbacError::RoleNotFound),
        s.revoke_role_outcome(caller, role, now) == Err::<(), RbacError>(RbacError::RoleNotFound),
        s.grant_role(caller, role, account, expiry, now) == s,
        s.revoke_role(caller, role, account, now) == s,
{
}

/// A holder of the root role who asks to change the admin of a role that
/// does not exist, or to a role that does not exist, is refused with
/// `RoleNotFound`.
pub proof fn lemma_unknown_role_gets_no_admin(
    s: State,
    caller: Seq<char>,
    role: Seq<char>,
    admin_role: Seq<char>,
    now: u64,
)
    requires
        s.has_role(root_role(), caller, now),
        !s.role_exists(role) || !s.role_exists(admin_role),
    ensures
        s.set_role_admin_outcome(caller, role, admin_role, now) == Err::<(), RbacError>(
            RbacError::RoleNotFound,
        ),
        s.set_role_admin(caller, role, admin_role, now) == s,
{
}

/// Initialization is for good: once initialized, the state stays so, and
/// the deployer stays who it was.
pub proof fn lemma_initialization_is_permanent(s: State, calls: Seq<Call>)
    requires
        s.initialized,
    ensures
        s.run(calls).initialized,
        s.run(calls).deployer == s.deployer,
    decreases calls.len(),
{
    if calls.len() > 0 {
        lemma_initialization_is_permanent(s, calls.drop_last());
    }
}

/// The root role has no holder on record and administers itself.
pub open spec fn locked(s: State) -> bool {
    &&& s.initialized
    &&& s.role_exists(root_role())
    &&& s.role_admin(root_role()) == root_role()
    &&& forall|account: Seq<char>| !(#[trigger] s.is_member(root_role(), account))
}

/// A hierarchy that has lost the last holder of its root role is frozen:
/// whatever is called afterwards, on behalf of whomever, no role is created,
/// no admin is changed, and nobody comes to hold the root role again.
pub proof fn lemma_locked_hierarchy_stays_locked(s: State, calls: Seq<Call>)
    requires
        locked(s),
    ensures
        locked(s.run(calls)),
        s.run(calls).roles == s.roles,
    decreases calls.len(),
{
    if calls.len() > 0 {
        lemma_locked_hierarchy_stays_locked(s, calls.drop_last());
        let before = s.run(calls.drop_last());
        let after = before.apply(calls.last().op, calls.last().now);
        assert forall|account: Seq<char>| !(#[trigger] after.is_member(root_role(), account)) by {
            assert(!before.is_member(root_role(), account));
        }
    }
}

/// Only holders of the root role change the hierarchy: after
/// initialization, a call that leaves other roles or other admins than it
/// found was made on behalf of a caller who held the root role then.
pub proof fn lemma_hierarchy_changes_need_root(s: State, op: Operation, now: u64)
    requires
        s.initialized,
        s.apply(op, now).roles != s.roles,
    ensures
        caller_of(op) is Some,
        s.has_role(root_role(), caller_of(op)->0, now),
{
}

/// Only the admins of a role hand it out or take it away: a call that
/// leaves `account` a member of `role` where it was none, or with another
/// expiry, or no member where it was one, is the initialization, or the
/// cleanup of a grant that had run out, or was made on behalf of a caller
/// who held the role's admin role then.
pub proof fn lemma_membership_changes_need_admin(
    s: State,
    op: Operation,
    now: u64,
    role: Seq<char>,
    account: Seq<char>,
)
    requires
        s.apply(op, now).is_member(role, account) != s.is_member(role, account) || s.apply(
            op,
            now,
        ).role_expiry(role, account) != s.role_expiry(role, account),
    ensures
        match op {
            Operation::Initialize { admin } => !s.initialized && role == root_role() && account == admin,
            Operation::CleanupExpiredRole { role: r, account: a } => r == role && a == account
                && !s.has_role(role, account, now),
            Operation::GrantRole { caller, role: r, account: a, .. } => r == role && a == account
                && s.has_role(s.role_admin(role), caller, now),
            Operation::RevokeRole { caller, role: r, account: a } => r == role && a == account
                && s.has_role(s.role_admin(role), caller, now),
            _ => false,
        },
{
}

/// The audit trail only grows, and no change goes unrecorded: a call that
/// changes roles, admins or grants appends to the trail.
pub proof fn lemma_every_change_is_recorded(s: State, op: Operation, now: u64)
    ensures
        s.trail.is_prefix_of(s.apply(op, now).trail),
        s.apply(op, now).roles != s.roles || s.apply(op, now).grants != s.grants ==> s.apply(
            op,
            now,
        ).trail.len() > s.trail.len(),
{
}

} // verus!
