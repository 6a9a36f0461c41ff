//! The access-control state as a mathematical value, and what each operation
//! makes of it.
//!
//! Every operation of the controller is described here twice over: by its
//! outcome (whether it is carried out, and if not, which error is reported)
//! and by the state that it leaves. An operation that is refused leaves the
//! state as it was.

use vstd::prelude::*;
use crate::errors::RbacError;
use crate::events::EventView;
use crate::ident::root_role;
use crate::membership::{expiry_of, is_member, spec_live_at, Grants};
use crate::registry::{admin_change_outcome, admin_of, creation_outcome, Hierarchy};
use crate::storage::{
    admin_writes, creation_writes, grant_writes, initialization_writes, removal_writes, DataKeyView,
    Ledger, ValueView, WriteView,
};

verus! {

/// The whole access-control state.
pub struct State {
    /// Set once, by initialization.
    pub initialized: bool,
    /// The account that initialization was made for.
    pub deployer: Option<Seq<char>>,
    /// The roles that exist, each with its admin.
    pub roles: Hierarchy,
    /// The grants in force, each with its expiry.
    pub grants: Grants,
    /// The audit trail, oldest record first.
    pub trail: Seq<EventView>,
    /// The writes that carry the changes into a key-value store, oldest
    /// first.
    pub journal: Seq<WriteView>,
}

impl State {
    /// The state before initialization: nothing exists.
    pub open spec fn empty() -> State {
        State {
            initialized: false,
            deployer: None,
            roles: Map::empty(),
            grants: Map::empty(),
            trail: Seq::empty(),
            journal: Seq::empty(),
        }
    }

    /// The entries under which a key-value store holds this state.
    pub open spec fn image(self) -> Ledger {
        Map::new(
            |key: DataKeyView|
                match key {
                    DataKeyView::Initialized => self.initialized,
                    DataKeyView::Deployer => self.deployer is Some,
                    DataKeyView::RoleExists(role) => self.roles.contains_key(role),
                    DataKeyView::RoleAdmin(role) => self.roles.contains_key(role),
                    DataKeyView::RoleMember(role, account) => self.grants.contains_key((role, account)),
                    DataKeyView::RoleExpiry(role, account) => self.grants.contains_key((role, account)),
                },
            |key: DataKeyView|
                match key {
                    DataKeyView::Initialized => ValueView::Bool(true),
                    DataKeyView::Deployer => ValueView::Address(self.deployer->0),
                    DataKeyView::RoleExists(role) => ValueView::Bool(true),
                    DataKeyView::RoleAdmin(role) => ValueView::Symbol(self.roles[role]),
                    DataKeyView::RoleMember(role, account) => ValueView::Bool(true),
                    DataKeyView::RoleExpiry(role, account) => ValueView::U64(self.grants[(role, account)]),
                },
        )
    }

    /// `role` has been created.
    pub open spec fn role_exists(self, role: Seq<char>) -> bool {
        self.roles.contains_key(role)
    }

    /// The admin of `role`; the root role where `role` does not exist.
    pub open spec fn role_admin(self, role: Seq<char>) -> Seq<char> {
        admin_of(self.roles, role)
    }

    /// `account` is recorded as a member of `role`, expired or not.
    pub open spec fn is_member(self, role: Seq<char>, account: Seq<char>) -> bool {
        is_member(self.grants, role, account)
    }

    /// The expiry recorded for `account` in `role`; 0 where there is no
    /// grant.
    pub open spec fn role_expiry(self, role: Seq<char>, account: Seq<char>) -> u64 {
        expiry_of(self.grants, role, account)
    }

    /// `account` holds `role` at the instant `now`: it is a member, and its
    /// grant is without limit or `now` is strictly before the expiry.
    pub open spec fn has_role(self, role: Seq<char>, account: Seq<char>, now: u64) -> bool {
        self.is_member(role, account) && spec_live_at(self.role_expiry(role, account), now)
    }

    /// `Ok` where `account` holds `role` at `now`.
    pub open spec fn require_role(
        self,
        role: Seq<char>,
        account: Seq<char>,
        now: u64,
    ) -> Result<(), RbacError> {
        if self.has_role(role, account, now) {
            Ok(())
        } else {
            Err(RbacError::NotAuthorized)
        }
    }

    /// The state after initialization for `admin`: the root role exists and
    /// administers itself, and `admin` holds it without limit.
    pub open spec fn initialize(self, admin: Seq<char>) -> State {
        State {
            initialized: true,
            deployer: Some(admin),
            roles: self.roles.insert(root_role(), root_role()),
            grants: self.grants.insert((root_role(), admin), 0),
            trail: self.trail.push(
                EventView::RoleCreated { role: root_role(), admin_role: root_role() },
            ).push(
                EventView::RoleGranted {
                    role: root_role(),
                    account: admin,
                    expiry: 0,
                    granted_by: admin,
                },
            ),
            journal: self.journal + initialization_writes(admin) + creation_writes(
                root_role(),
                root_role(),
            ) + grant_writes(root_role(), admin, 0),
        }
    }

    /// Whether `caller` may create `role` under `admin_role` at `now`.
    pub open spec fn create_role_outcome(
        self,
        caller: Seq<char>,
        role: Seq<char>,
        admin_role: Seq<char>,
        now: u64,
    ) -> Result<(), RbacError> {
        if !self.has_role(root_role(), caller, now) {
            Err(RbacError::NotAuthorized)
        } else {
            creation_outcome(self.roles, role, admin_role)
        }
    }

    /// The state that `create_role` leaves.
    pub open spec fn create_role(
        self,
        caller: Seq<char>,
        role: Seq<char>,
        admin_role: Seq<char>,
        now: u64,
    ) -> State {
        if self.create_role_outcome(caller, role, admin_role, now) is Ok {
            State {
                roles: self.roles.insert(role, admin_role),
                trail: self.trail.push(EventView::RoleCreated { role, admin_role }),
                journal: self.journal + creation_writes(role, admin_role),
                ..self
            }
        } else {
            self
        }
    }

    /// Whether `caller` may make `admin_role` the admin of `role` at `now`.
    pub open spec fn set_role_admin_outcome(
        self,
        caller: Seq<char>,
        role: Seq<char>,
        admin_role: Seq<char>,
        now: u64,
    ) -> Result<(), RbacError> {
        if !self.has_role(root_role(), caller, now) {
            Err(RbacError::NotAuthorized)
        } else {
            admin_change_outcome(self.roles, role, admin_role)
        }
    }

    /// The state that `set_role_admin` leaves.
    pub open spec fn set_role_admin(
        self,
        caller: Seq<char>,
        role: Seq<char>,
        admin_role: Seq<char>,
        now: u64,
    ) -> State {
        if self.set_role_admin_outcome(caller, role, admin_role, now) is Ok {
            State {
                roles: self.roles.insert(role, admin_role),
                trail: self.trail.push(
                    EventView::RoleAdminChanged {
                        role,
                        previous_admin: self.role_admin(role),
                        new_admin: admin_role,
                    },
                ),
                journal: self.journal + admin_writes(role, admin_role),
                ..self
            }
        } else {
            self
        }
    }

    /// An expiry that a new grant may carry at `now`: none, or an instant
    /// strictly later than `now`.
    pub open spec fn valid_expiry(expiry: u64, now: u64) -> bool {
        expiry == 0 || expiry > now
    }

    /// Whether `caller` may grant `role` until `expiry` at `now`.
    pub open spec fn grant_role_outcome(
        self,
        caller: Seq<char>,
        role: Seq<char>,
        expiry: u64,
        now: u64,
    ) -> Result<(), RbacError> {
        if !self.role_exists(role) {
            Err(RbacError::RoleNotFound)
        } else if !self.has_role(self.role_admin(role), caller, now) {
            Err(RbacError::NotAuthorized)
        } else if !Self::valid_expiry(expiry, now) {
            Err(RbacError::InvalidExpiry)
        } else {
            Ok(())
        }
    }

    /// The state that `grant_role` leaves.
    pub open spec fn grant_role(
        self,
        caller: Seq<char>,
        role: Seq<char>,
        account: Seq<char>,
        expiry: u64,
        now: u64,
    ) -> State {
        if self.grant_role_outcome(caller, role, expiry, now) is Ok {
            State {
                grants: self.grants.insert((role, account), expiry),
                trail: self.trail.push(
                    EventView::RoleGranted { role, account, expiry, granted_by: caller },
                ),
                journal: self.journal + grant_writes(role, account, expiry),
                ..self
            }
        } else {
            self
        }
    }

    /// Whether `caller` may revoke `role` at `now`.
    pub open spec fn revoke_role_outcome(
        self,
        caller: Seq<char>,
        role: Seq<char>,
        now: u64,
    ) -> Result<(), RbacError> {
        if !self.role_exists(role) {
            Err(RbacError::RoleNotFound)
        } else if !self.has_role(self.role_admin(role), caller, now) {
            Err(RbacError::NotAuthorized)
        } else {
            Ok(())
        }
    }

    /// The state that `revoke_role` leaves.
    pub open spec fn revoke_role(
        self,
        caller: Seq<char>,
        role: Seq<char>,
        account: Seq<char>,
        now: u64,
    ) -> State {
        if self.revoke_role_outcome(caller, role, now) is Ok {
            State {
                grants: self.grants.remove((role, account)),
                trail: self.trail.push(EventView::RoleRevoked { role, account, revoked_by: caller }),
                journal: self.journal + removal_writes(role, account),
                ..self
            }
        } else {
            self
        }
    }

    /// The grant of `role` to `account` has run out at `now` and is still
    /// recorded.
    pub open spec fn cleanup_due(self, role: Seq<char>, account: Seq<char>, now: u64) -> bool {
        self.is_member(role, account) && self.role_expiry(role, account) != 0 && now
            >= self.role_expiry(role, account)
    }

    /// The state that `cleanup_expired_role` leaves.
    pub open spec fn cleanup_expired_role(self, role: Seq<char>, account: Seq<char>, now: u64) -> State {
        if self.cleanup_due(role, account, now) {
            State {
                grants: self.grants.remove((role, account)),
                trail: self.trail.push(
                    EventView::RoleExpired {
                        role,
                        account,
                        expired_at: self.role_expiry(role, account),
                    },
                ),
                journal: self.journal + removal_writes(role, account),
                ..self
            }
        } else {
            self
        }
    }
}

/// A call of the controller, with its arguments. The last two only ask.
pub enum Operation {
    Initialize { admin: Seq<char> },
    CreateRole { caller: Seq<char>, role: Seq<char>, admin_role: Seq<char> },
    SetRoleAdmin { caller: Seq<char>, role: Seq<char>, admin_role: Seq<char> },
    GrantRole { caller: Seq<char>, role: Seq<char>, account: Seq<char>, expiry: u64 },
    RevokeRole { caller: Seq<char>, role: Seq<char>, account: Seq<char> },
    CleanupExpiredRole { role: Seq<char>, account: Seq<char> },
    HasRole { role: Seq<char>, account: Seq<char> },
    RequireRole { role: Seq<char>, account: Seq<char> },
}

impl Operation {
    /// The call asks and changes nothing.
    pub open spec fn is_question(self) -> bool {
        self is HasRole || self is RequireRole
    }
}

/// An operation together with the instant at which it is called.
pub struct Call {
    pub op: Operation,
    pub now: u64,
}

impl State {
    /// The state after `op` has been called at `now`. Initialization of a
    /// state that is initialized already is not a call that can be made: it
    /// stands for no change.
    pub open spec fn apply(self, op: Operation, now: u64) -> State {
        match op {
            Operation::Initialize { admin } => if self.initialized {
                self
            } else {
                self.initialize(admin)
            },
            Operation::CreateRole { caller, role, admin_role } => self.create_role(
                caller,
                role,
                admin_role,
                now,
            ),
            Operation::SetRoleAdmin { caller, role, admin_role } => self.set_role_admin(
                caller,
                role,
                admin_role,
                now,
            ),
            Operation::GrantRole { caller, role, account, expiry } => self.grant_role(
                caller,
                role,
                account,
                expiry,
                now,
            ),
            Operation::RevokeRole { caller, role, account } => self.revoke_role(
                caller,
                role,
                account,
                now,
            ),
            Operation::CleanupExpiredRole { role, account } => self.cleanup_expired_role(
                role,
                account,
                now,
            ),
            Operation::HasRole { .. } => self,
            Operation::RequireRole { .. } => self,
        }
    }

    /// The state after the calls of `calls` have been made, in order.
    pub open spec fn run(self, calls: Seq<Call>) -> State
        decreases calls.len(),
    {
        if calls.len() == 0 {
            self
        } else {
            self.run(calls.drop_last()).apply(calls.last().op, calls.last().now)
        }
    }

    /// The hierarchy is well-formed:
    /// - the admin of every role exists;
    /// - no role but the root role administers itself;
    /// - only roles that exist are granted;
    /// - once initialized, the root role exists and the deployer is known;
    /// - before that, there is no role, no grant and no deployer.
    pub open spec fn inv(self) -> bool {
        &&& forall|r: Seq<char>| #[trigger]
            self.roles.contains_key(r) ==> self.roles.contains_key(self.roles[r])
        &&& forall|r: Seq<char>| #[trigger]
            self.roles.contains_key(r) && self.roles[r] == r ==> r == root_role()
        &&& forall|r: Seq<char>, a: Seq<char>| #[trigger]
            self.grants.contains_key((r, a)) ==> self.roles.contains_key(r)
        &&& self.initialized ==> self.roles.contains_key(root_role()) && self.deployer is Some
        &&& !self.initialized ==> self.roles == Hierarchy::empty() && self.grants == Grants::empty()
            && self.deployer is None
    }
}

} // verus!
