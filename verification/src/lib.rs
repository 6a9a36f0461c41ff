//! Hierarchical, time-limited role-based access control.
//!
//! Roles are created under an admin role, whose holders grant and revoke
//! them. A grant may carry an expiry, after which it is no longer honoured.
//! One root role stands at the top: its holders create roles and reassign
//! admins, and it alone administers itself.
//!
//! - [`ident`], [`errors`], [`events`]: the names of roles and accounts, the
//!   refusals, and the audit records.
//! - [`registry`], [`membership`]: the roles with their admins, and the
//!   grants with their expiries.
//! - [`contract`]: the controller, which decides who may change what,
//!   changes it, records it and writes it down for the store.
//! - [`storage`]: the layout of the state in a key-value store.
//! - [`model`]: the state as a mathematical value, and each operation as a
//!   function on it. The controller is proved to do what these functions
//!   say.
//! - [`laws`], [`persistence`]: what follows for every state and every
//!   sequence of calls.
//! - [`assoc`]: the lemmas on which the two stores rest.
//!
//! The engine neither authenticates callers nor reads a clock nor owns a
//! store: it is handed an established caller and the current instant, and it
//! hands back the writes and the records of what it did.

pub mod assoc;
pub mod contract;
pub mod errors;
pub mod events;
pub mod ident;
pub mod laws;
pub mod membership;
pub mod model;
pub mod persistence;
pub mod registry;
pub mod storage;

pub use contract::RbacContract;
pub use errors::RbacError;
pub use events::{
    Event, RoleAdminChangedEvent, RoleCreatedEvent, RoleExpiredEvent, RoleGrantedEvent,
    RoleRevokedEvent,
};
pub use ident::{Address, Symbol, DEFAULT_ADMIN_ROLE};
pub use membership::MembershipStore;
pub use registry::RoleRegistry;
pub use storage::{DataKey, Value, Write};
