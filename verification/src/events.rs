//! The audit trail: one record for every change of the access-control state.
//!
//! Records are appended to a log in the order in which the changes happen.
//! Nothing here decides anything: the functions only write down what the
//! controller has already done.

use vstd::prelude::*;
use crate::ident::{Address, Symbol};

verus! {

/// A role was created.
#[derive(Clone, Debug, PartialEq)]
pub struct RoleCreatedEvent {
    pub role: Symbol,
    pub admin_role: Symbol,
}

/// The admin of a role was changed.
#[derive(Clone, Debug, PartialEq)]
pub struct RoleAdminChangedEvent {
    pub role: Symbol,
    pub previous_admin: Symbol,
    pub new_admin: Symbol,
}

/// A role was granted to an account.
#[derive(Clone, Debug, PartialEq)]
pub struct RoleGrantedEvent {
    pub role: Symbol,
    pub account: Address,
    pub expiry: u64,
    pub granted_by: Address,
}

/// A role was revoked from an account.
#[derive(Clone, Debug, PartialEq)]
pub struct RoleRevokedEvent {
    pub role: Symbol,
    pub account: Address,
    pub revoked_by: Address,
}

/// A grant that had run out was removed.
#[derive(Clone, Debug, PartialEq)]
pub struct RoleExpiredEvent {
    pub role: Symbol,
    pub account: Address,
    pub expired_at: u64,
}

/// One record of the audit trail.
#[derive(Debug, PartialEq)]
pub enum Event {
    RoleCreated(RoleCreatedEvent),
    RoleAdminChanged(RoleAdminChangedEvent),
    RoleGranted(RoleGrantedEvent),
    RoleRevoked(RoleRevokedEvent),
    RoleExpired(RoleExpiredEvent),
}

/// What a record says, over the names of the roles and accounts involved.
pub enum EventView {
    RoleCreated { role: Seq<char>, admin_role: Seq<char> },
    RoleAdminChanged { role: Seq<char>, previous_admin: Seq<char>, new_admin: Seq<char> },
    RoleGranted { role: Seq<char>, account: Seq<char>, expiry: u64, granted_by: Seq<char> },
    RoleRevoked { role: Seq<char>, account: Seq<char>, revoked_by: Seq<char> },
    RoleExpired { role: Seq<char>, account: Seq<char>, expired_at: u64 },
}

impl View for Event {
    type V = EventView;

    open spec fn view(&self) -> EventView {
        match *self {
            Event::RoleCreated(e) => EventView::RoleCreated { role: e.role@, admin_role: e.admin_role@ },
            Event::RoleAdminChanged(e) => EventView::RoleAdminChanged {
                role: e.role@,
                previous_admin: e.previous_admin@,
                new_admin: e.new_admin@,
            },
            Event::RoleGranted(e) => EventView::RoleGranted {
                role: e.role@,
                account: e.account@,
                expiry: e.expiry,
                granted_by: e.granted_by@,
            },
            Event::RoleRevoked(e) => EventView::RoleRevoked {
                role: e.role@,
                account: e.account@,
                revoked_by: e.revoked_by@,
            },
            Event::RoleExpired(e) => EventView::RoleExpired {
                role: e.role@,
                account: e.account@,
                expired_at: e.expired_at,
            },
        }
    }
}

impl EventView {
    /// The topic under which a record of this kind is published.
    pub open spec fn topic(self) -> Seq<char> {
        match self {
            EventView::RoleCreated { .. } => "RoleCreat"@,
            EventView::RoleAdminChanged { .. } => "AdminChg"@,
            EventView::RoleGranted { .. } => "RoleGrant"@,
            EventView::RoleRevoked { .. } => "RoleRevok"@,
            EventView::RoleExpired { .. } => "RoleExpir"@,
        }
    }
}

impl Event {
    /// The topic under which the record is published.
    pub fn topic(&self) -> (t: &'static str)
        ensures
            t@ == self@.topic(),
    {
        match self {
            Event::RoleCreated(_) => "RoleCreat",
            Event::RoleAdminChanged(_) => "AdminChg",
            Event::RoleGranted(_) => "RoleGrant",
            Event::RoleRevoked(_) => "RoleRevok",
            Event::RoleExpired(_) => "RoleExpir",
        }
    }
}

/// What a log says: the view of each of its records, in order.
pub open spec fn trail(log: Seq<Event>) -> Seq<EventView> {
    log.map_values(|e: Event| e@)
}

/// Records that `role` was created under `admin_role`.
pub fn role_created(log: &mut Vec<Event>, role: Symbol, admin_role: Symbol)
    ensures
        trail(final(log)@) == trail(old(log)@).push(
            EventView::RoleCreated { role: role@, admin_role: admin_role@ },
        ),
{
    let e = Event::RoleCreated(RoleCreatedEvent { role, admin_role });
    log.push(e);
}

/// Records that the admin of `role` went from `previous_admin` to `new_admin`.
pub fn role_admin_changed(log: &mut Vec<Event>, role: Symbol, previous_admin: Symbol, new_admin: Symbol)
    ensures
        trail(final(log)@) == trail(old(log)@).push(
            EventView::RoleAdminChanged {
                role: role@,
                previous_admin: previous_admin@,
                new_admin: new_admin@,
            },
        ),
{
    let e = Event::RoleAdminChanged(RoleAdminChangedEvent { role, previous_admin, new_admin });
    log.push(e);
}

/// Records that `granted_by` granted `role` to `account` until `expiry`
/// (0: without limit).
pub fn role_granted(log: &mut Vec<Event>, role: Symbol, account: Address, expiry: u64, granted_by: Address)
    ensures
        trail(final(log)@) == trail(old(log)@).push(
            EventView::RoleGranted {
                role: role@,
                account: account@,
                expiry: expiry,
                granted_by: granted_by@,
            },
        ),
{
    let e = Event::RoleGranted(RoleGrantedEvent { role, account, expiry, granted_by });
    log.push(e);
}

/// Records that `revoked_by` revoked `role` from `account`.
pub fn role_revoked(log: &mut Vec<Event>, role: Symbol, account: Address, revoked_by: Address)
    ensures
        trail(final(log)@) == trail(old(log)@).push(
            EventView::RoleRevoked { role: role@, account: account@, revoked_by: revoked_by@ },
        ),
{
    let e = Event::RoleRevoked(RoleRevokedEvent { role, account, revoked_by });
    log.push(e);
}

/// Records that the grant of `role` to `account`, which ran out at
/// `expired_at`, was removed.
pub fn role_expired(log: &mut Vec<Event>, role: Symbol, account: Address, expired_at: u64)
    ensures
        trail(final(log)@) == trail(old(log)@).push(
            EventView::RoleExpired { role: role@, account: account@, expired_at: expired_at },
        ),
{
    let e = Event::RoleExpired(RoleExpiredEvent { role, account, expired_at });
    log.push(e);
}

} // verus!
