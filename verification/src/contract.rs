//! The controller: the one place where the access-control state changes.
//!
//! Every operation that changes the state is called on behalf of a caller.
//! The controller takes the caller's identity as established: proving that
//! the caller controls that identity is the embedding's business, and so is
//! reading the clock, whose current value each operation takes as `now`.
//! What the controller decides is whether that caller may do what it asks,
//! and only if so it changes the state, writes the audit record, and writes
//! the change down in the journal for the store.

use vstd::prelude::*;
use crate::errors::RbacError;
use crate::events::{
    role_admin_changed, role_created, role_expired, role_granted, role_revoked, trail, Event,
};
use crate::ident::{address_name, default_admin_role, Address, Symbol};
use crate::membership::{live_at, MembershipStore};
use crate::model::State;
use crate::registry::RoleRegistry;
use crate::storage::{
    admin_writes, creation_writes, grant_writes, journal, put, remove, removal_writes, DataKey, Value,
    Write,
};

verus! {

/// The access-control state together with the operations on it.
#[derive(Debug)]
pub struct RbacContract {
    initialized: bool,
    deployer: Option<Address>,
    registry: RoleRegistry,
    members: MembershipStore,
    events: Vec<Event>,
    writes: Vec<Write>,
}

impl View for RbacContract {
    type V = State;

    closed spec fn view(&self) -> State {
        State {
            initialized: self.initialized,
            deployer: address_name(self.deployer),
            roles: self.registry@,
            grants: self.members@,
            trail: trail(self.events@),
            journal: journal(self.writes@),
        }
    }
}

impl RbacContract {
    /// The state before initialization.
    pub fn new() -> (contract: RbacContract)
        ensures
            contract@ == State::empty(),
    {
        let contract = RbacContract {
            initialized: false,
            deployer: None,
            registry: RoleRegistry::new(),
            members: MembershipStore::new(),
            events: Vec::new(),
            writes: Vec::new(),
        };
        assert(contract@.trail =~= Seq::empty());
        assert(contract@.journal =~= Seq::empty());
        contract
    }

    /// The state made of the given parts, with nothing recorded and nothing
    /// written down yet.
    ///
    /// This is how an embedding that keeps the state elsewhere brings it
    /// back, in whole or as far as a call needs it. No rule is checked:
    /// whoever owns the stored state answers for it.
    pub fn from_parts(
        initialized: bool,
        deployer: Option<Address>,
        registry: RoleRegistry,
        members: MembershipStore,
    ) -> (contract: RbacContract)
        ensures
            contract@ == (State {
                initialized: initialized,
                deployer: address_name(deployer),
                roles: registry@,
                grants: members@,
                trail: Seq::empty(),
                journal: Seq::empty(),
            }),
    {
        let contract = RbacContract {
            initialized,
            deployer,
            registry,
            members,
            events: Vec::new(),
            writes: Vec::new(),
        };
        assert(contract@.trail =~= Seq::empty());
        assert(contract@.journal =~= Seq::empty());
        contract
    }

    /// Whether initialization has been done.
    pub fn is_initialized(&self) -> (initialized: bool)
        ensures
            initialized == self@.initialized,
    {
        self.initialized
    }

    /// Sets the state up for `admin`: the root role comes into existence as
    /// its own admin, and `admin` holds it without limit.
    ///
    /// Initialization happens once: a second one is a mistake of the
    /// embedding, which must not make the call.
    pub fn initialize(&mut self, admin: Address)
        requires
            !old(self)@.initialized,
        ensures
            final(self)@ == old(self)@.initialize(admin@),
    {
        self.initialized = true;
        put(&mut self.writes, DataKey::Initialized, Value::Bool(true));
        self.deployer = Some(admin.clone());
        put(&mut self.writes, DataKey::Deployer, Value::Address(admin.clone()));
        self.registry.put(default_admin_role(), default_admin_role());
        self.record_creation(&default_admin_role(), &default_admin_role());
        self.members.set_grant(default_admin_role(), admin.clone(), 0);
        self.record_grant(&default_admin_role(), &admin, 0);
        role_created(&mut self.events, default_admin_role(), default_admin_role());
        role_granted(&mut self.events, default_admin_role(), admin.clone(), 0, admin);
        assert(self@.journal =~= old(self)@.initialize(admin@).journal);
    }

    /// Writes down the writes that create `role` under `admin_role`.
    fn record_creation(&mut self, role: &Symbol, admin_role: &Symbol)
        ensures
            final(self)@ == (State {
                journal: old(self)@.journal + creation_writes(role@, admin_role@),
                ..old(self)@
            }),
    {
        put(&mut self.writes, DataKey::RoleExists(role.clone()), Value::Bool(true));
        put(&mut self.writes, DataKey::RoleAdmin(role.clone()), Value::Symbol(admin_role.clone()));
        assert(self@.journal =~= old(self)@.journal + creation_writes(role@, admin_role@));
    }

    /// Writes down the writes that grant `role` to `account` until `expiry`.
    fn record_grant(&mut self, role: &Symbol, account: &Address, expiry: u64)
        ensures
            final(self)@ == (State {
                journal: old(self)@.journal + grant_writes(role@, account@, expiry),
                ..old(self)@
            }),
    {
        put(&mut self.writes, DataKey::RoleMember(role.clone(), account.clone()), Value::Bool(true));
        put(&mut self.writes, DataKey::RoleExpiry(role.clone(), account.clone()), Value::U64(expiry));
        assert(self@.journal =~= old(self)@.journal + grant_writes(role@, account@, expiry));
    }

    /// Writes down the writes that take `role` away from `account`.
    fn record_removal(&mut self, role: &Symbol, account: &Address)
        ensures
            final(self)@ == (State {
                journal: old(self)@.journal + removal_writes(role@, account@),
                ..old(self)@
            }),
    {
        remove(&mut self.writes, DataKey::RoleMember(role.clone(), account.clone()));
        remove(&mut self.writes, DataKey::RoleExpiry(role.clone(), account.clone()));
        assert(self@.journal =~= old(self)@.journal + removal_writes(role@, account@));
    }

    /// Whether `account` holds `role` at `now`, by reference.
    fn holds(&self, role: &Symbol, account: &Address, now: u64) -> (held: bool)
        ensures
            held == self@.has_role(role@, account@, now),
    {
        if !self.members.is_member(role, account) {
            return false;
        }
        live_at(self.members.get_expiry(role, account), now)
    }

    /// Creates `role` under `admin_role`, on behalf of `caller`.
    ///
    /// Refused with `NotAuthorized` where `caller` does not hold the root
    /// role at `now`; else with `RoleAlreadyExists` where `role` exists;
    /// else with `InvalidSelfAdmin` where a role other than the root role is
    /// to administer itself; else with `RoleNotFound` where `admin_role`
    /// does not exist.
    pub fn create_role(
        &mut self,
        caller: Address,
        role: Symbol,
        admin_role: Symbol,
        now: u64,
    ) -> (result: Result<(), RbacError>)
        ensures
            result == old(self)@.create_role_outcome(caller@, role@, admin_role@, now),
            final(self)@ == old(self)@.create_role(caller@, role@, admin_role@, now),
    {
        if !self.holds(&default_admin_role(), &caller, now) {
            return Err(RbacError::NotAuthorized);
        }
        match self.registry.create_role(role.clone(), admin_role.clone()) {
            Err(e) => Err(e),
            Ok(()) => {
                self.record_creation(&role, &admin_role);
                role_created(&mut self.events, role, admin_role);
                Ok(())
            },
        }
    }

    /// Makes `admin_role` the admin of `role`, on behalf of `caller`.
    ///
    /// Refused with `NotAuthorized` where `caller` does not hold the root
    /// role at `now`; else with `RoleNotFound` where either role does not
    /// exist; else with `InvalidSelfAdmin` where a role other than the root
    /// role is to administer itself.
    pub fn set_role_admin(
        &mut self,
        caller: Address,
        role: Symbol,
        admin_role: Symbol,
        now: u64,
    ) -> (result: Result<(), RbacError>)
        ensures
            result == old(self)@.set_role_admin_outcome(caller@, role@, admin_role@, now),
            final(self)@ == old(self)@.set_role_admin(caller@, role@, admin_role@, now),
    {
        if !self.holds(&default_admin_role(), &caller, now) {
            return Err(RbacError::NotAuthorized);
        }
        match self.registry.set_role_admin(role.clone(), admin_role.clone()) {
            Err(e) => Err(e),
            Ok(previous_admin) => {
                put(&mut self.writes, DataKey::RoleAdmin(role.clone()), Value::Symbol(admin_role.clone()));
                assert(self@.journal =~= old(self)@.journal + admin_writes(role@, admin_role@));
                role_admin_changed(&mut self.events, role, previous_admin, admin_role);
                Ok(())
            },
        }
    }

    /// Grants `role` to `account` until `expiry` (0: without limit), on
    /// behalf of `caller`. A grant that the account already has for the role
    /// is replaced.
    ///
    /// Refused with `RoleNotFound` where `role` does not exist; else with
    /// `NotAuthorized` where `caller` does not hold the admin role of `role`
    /// at `now`; else with `InvalidExpiry` where `expiry` is neither 0 nor
    /// later than `now`.
    pub fn grant_role(
        &mut self,
        caller: Address,
        role: Symbol,
        account: Address,
        expiry: u64,
        now: u64,
    ) -> (result: Result<(), RbacError>)
        ensures
            result == old(self)@.grant_role_outcome(caller@, role@, expiry, now),
            final(self)@ == old(self)@.grant_role(caller@, role@, account@, expiry, now),
    {
        if !self.registry.role_exists(&role) {
            return Err(RbacError::RoleNotFound);
        }
        let admin_role = self.registry.get_role_admin(&role);
        if !self.holds(&admin_role, &caller, now) {
            return Err(RbacError::NotAuthorized);
        }
        if expiry != 0 && expiry <= now {
            return Err(RbacError::InvalidExpiry);
        }
        self.members.set_grant(role.clone(), account.clone(), expiry);
        self.record_grant(&role, &account, expiry);
        role_granted(&mut self.events, role, account, expiry, caller);
        Ok(())
    }

    /// Revokes `role` from `account`, on behalf of `caller`. Where the
    /// account has no grant for the role, the revocation is still carried
    /// out and recorded.
    ///
    /// Refused with `RoleNotFound` where `role` does not exist; else with
    /// `NotAuthorized` where `caller` does not hold the admin role of `role`
    /// at `now`.
    pub fn revoke_role(
        &mut self,
        caller: Address,
        role: Symbol,
        account: Address,
        now: u64,
    ) -> (result: Result<(), RbacError>)
        ensures
            result == old(self)@.revoke_role_outcome(caller@, role@, now),
            final(self)@ == old(self)@.revoke_role(caller@, role@, account@, now),
    {
        if !self.registry.role_exists(&role) {
            return Err(RbacError::RoleNotFound);
        }
        let admin_role = self.registry.get_role_admin(&role);
        if !self.holds(&admin_role, &caller, now) {
            return Err(RbacError::NotAuthorized);
        }
        self.members.clear_grant(&role, &account);
        self.record_removal(&role, &account);
        role_revoked(&mut self.events, role, account, caller);
        Ok(())
    }

    /// Whether `account` holds `role` at `now`: it is a member, and its
    /// grant is without limit or `now` is strictly before the expiry.
    /// Nothing is changed, even where the grant has run out.
    pub fn has_role(&self, role: Symbol, account: Address, now: u64) -> (held: bool)
        ensures
            held == self@.has_role(role@, account@, now),
    {
        self.holds(&role, &account, now)
    }

    /// Removes the grant of `role` to `account` if it has run out at `now`,
    /// and says whether it did so. Anyone may ask for this.
    pub fn cleanup_expired_role(&mut self, role: Symbol, account: Address, now: u64) -> (removed: bool)
        ensures
            removed == old(self)@.cleanup_due(role@, account@, now),
            final(self)@ == old(self)@.cleanup_expired_role(role@, account@, now),
    {
        if !self.members.is_member(&role, &account) {
            return false;
        }
        let expiry = self.members.get_expiry(&role, &account);
        if expiry == 0 {
            return false;
        }
        if now >= expiry {
            self.members.clear_grant(&role, &account);
            self.record_removal(&role, &account);
            role_expired(&mut self.events, role, account, expiry);
            return true;
        }
        false
    }

    /// `Ok` where `account` holds `role` at `now`, `NotAuthorized` where it
    /// does not.
    pub fn require_role(&self, role: Symbol, account: Address, now: u64) -> (result: Result<(), RbacError>)
        ensures
            result == self@.require_role(role@, account@, now),
    {
        if !self.holds(&role, &account, now) {
            return Err(RbacError::NotAuthorized);
        }
        Ok(())
    }

    /// The expiry recorded for `account` in `role` (0: without limit); 0
    /// also where there is no grant.
    pub fn get_role_expiry(&self, role: Symbol, account: Address) -> (expiry: u64)
        ensures
            expiry == self@.role_expiry(role@, account@),
    {
        self.members.get_expiry(&role, &account)
    }

    /// The admin of `role`; the root role where `role` does not exist.
    pub fn get_role_admin(&self, role: Symbol) -> (admin: Symbol)
        ensures
            admin@ == self@.role_admin(role@),
    {
        self.registry.get_role_admin(&role)
    }

    /// Whether `role` has been created.
    pub fn role_exists(&self, role: Symbol) -> (exists: bool)
        ensures
            exists == self@.role_exists(role@),
    {
        self.registry.role_exists(&role)
    }

    /// The account that initialization was made for, once it has been done.
    pub fn get_deployer(&self) -> (deployer: Option<Address>)
        ensures
            address_name(deployer) == self@.deployer,
    {
        match &self.deployer {
            Some(a) => Some(a.clone()),
            None => None,
        }
    }

    /// The root role.
    pub fn default_admin_role() -> (role: Symbol)
        ensures
            role@ == crate::ident::root_role(),
    {
        default_admin_role()
    }

    /// The audit records written so far, oldest first.
    pub fn events(&self) -> (events: &Vec<Event>)
        ensures
            trail(events@) == self@.trail,
    {
        &self.events
    }

    /// Hands the audit records written so far to the caller, oldest first,
    /// and starts the trail afresh.
    pub fn take_events(&mut self) -> (events: Vec<Event>)
        ensures
            trail(events@) == old(self)@.trail,
            final(self)@ == (State { trail: Seq::empty(), ..old(self)@ }),
    {
        let mut events: Vec<Event> = Vec::new();
        std::mem::swap(&mut events, &mut self.events);
        assert(trail(self.events@) =~= Seq::empty());
        events
    }

    /// The writes of the journal so far, oldest first.
    pub fn writes(&self) -> (writes: &Vec<Write>)
        ensures
            journal(writes@) == self@.journal,
    {
        &self.writes
    }

    /// Hands the journal written so far to the caller, oldest write first,
    /// and starts it afresh.
    pub fn take_writes(&mut self) -> (writes: Vec<Write>)
        ensures
            journal(writes@) == old(self)@.journal,
            final(self)@ == (State { journal: Seq::empty(), ..old(self)@ }),
    {
        let mut writes: Vec<Write> = Vec::new();
        std::mem::swap(&mut writes, &mut self.writes);
        assert(journal(self.writes@) =~= Seq::empty());
        writes
    }
}

} // verus!
