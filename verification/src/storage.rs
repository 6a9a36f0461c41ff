//! How the access-control state is laid out in a key-value store.
//!
//! Every fact is an entry of its own: one per role for its existence and
//! one for its admin, one per role and account for the membership and one
//! for its expiry, one for the initialization mark and one for the
//! deployer. No entry lists the roles or the members, so no entry grows.
//!
//! The controller works on the state in memory. What it changes it also
//! writes down, as a journal of writes to these entries, so that whoever
//! keeps the store can carry the change out.

use vstd::prelude::*;
use crate::ident::{Address, Symbol};

verus! {

/// The key of an entry.
#[derive(Clone, Debug, PartialEq)]
pub enum DataKey {
    /// The admin role of a role.
    RoleAdmin(Symbol),
    /// Whether an account is a member of a role.
    RoleMember(Symbol, Address),
    /// Until when an account holds a role (0: without limit).
    RoleExpiry(Symbol, Address),
    /// The account that initialization was made for.
    Deployer,
    /// The mark that initialization has been done.
    Initialized,
    /// The mark that a role exists.
    RoleExists(Symbol),
}

/// The value of an entry.
#[derive(Debug, PartialEq)]
pub enum Value {
    Bool(bool),
    U64(u64),
    Symbol(Symbol),
    Address(Address),
}

/// One change of the store.
#[derive(Debug, PartialEq)]
pub enum Write {
    /// Store the value under the key, in place of what is there.
    Put(DataKey, Value),
    /// Remove the entry under the key, if there is one.
    Remove(DataKey),
}

/// A key, over the names of the role and the account.
pub enum DataKeyView {
    RoleAdmin(Seq<char>),
    RoleMember(Seq<char>, Seq<char>),
    RoleExpiry(Seq<char>, Seq<char>),
    Deployer,
    Initialized,
    RoleExists(Seq<char>),
}

/// A value, over the names of roles and accounts.
pub enum ValueView {
    Bool(bool),
    U64(u64),
    Symbol(Seq<char>),
    Address(Seq<char>),
}

/// A change of the store, over keys and values by name.
pub enum WriteView {
    Put(DataKeyView, ValueView),
    Remove(DataKeyView),
}

impl View for DataKey {
    type V = DataKeyView;

    open spec fn view(&self) -> DataKeyView {
        match *self {
            DataKey::RoleAdmin(role) => DataKeyView::RoleAdmin(role@),
            DataKey::RoleMember(role, account) => DataKeyView::RoleMember(role@, account@),
            DataKey::RoleExpiry(role, account) => DataKeyView::RoleExpiry(role@, account@),
            DataKey::Deployer => DataKeyView::Deployer,
            DataKey::Initialized => DataKeyView::Initialized,
            DataKey::RoleExists(role) => DataKeyView::RoleExists(role@),
        }
    }
}

impl View for Value {
    type V = ValueView;

    open spec fn view(&self) -> ValueView {
        match *self {
            Value::Bool(b) => ValueView::Bool(b),
            Value::U64(n) => ValueView::U64(n),
            Value::Symbol(s) => ValueView::Symbol(s@),
            Value::Address(a) => ValueView::Address(a@),
        }
    }
}

impl View for Write {
    type V = WriteView;

    open spec fn view(&self) -> WriteView {
        match *self {
            Write::Put(key, value) => WriteView::Put(key@, value@),
            Write::Remove(key) => WriteView::Remove(key@),
        }
    }
}

/// What a store holds.
pub type Ledger = Map<DataKeyView, ValueView>;

/// Whether the store has an entry under `key`.
pub open spec fn has(ledger: Ledger, key: DataKeyView) -> bool {
    ledger.contains_key(key)
}

/// The flag stored under `key`, if one is.
pub open spec fn bool_at(ledger: Ledger, key: DataKeyView) -> Option<bool> {
    if ledger.contains_key(key) && ledger[key] is Bool {
        Some(ledger[key]->Bool_0)
    } else {
        None
    }
}

/// The number stored under `key`, if one is.
pub open spec fn u64_at(ledger: Ledger, key: DataKeyView) -> Option<u64> {
    if ledger.contains_key(key) && ledger[key] is U64 {
        Some(ledger[key]->U64_0)
    } else {
        None
    }
}

/// The role name stored under `key`, if one is.
pub open spec fn symbol_at(ledger: Ledger, key: DataKeyView) -> Option<Seq<char>> {
    if ledger.contains_key(key) && ledger[key] is Symbol {
        Some(ledger[key]->Symbol_0)
    } else {
        None
    }
}

/// The account name stored under `key`, if one is.
pub open spec fn address_at(ledger: Ledger, key: DataKeyView) -> Option<Seq<char>> {
    if ledger.contains_key(key) && ledger[key] is Address {
        Some(ledger[key]->Address_0)
    } else {
        None
    }
}

/// The store after one write.
pub open spec fn written(ledger: Ledger, write: WriteView) -> Ledger {
    match write {
        WriteView::Put(key, value) => ledger.insert(key, value),
        WriteView::Remove(key) => ledger.remove(key),
    }
}

/// The store after the writes of `writes`, in order.
pub open spec fn replayed(ledger: Ledger, writes: Seq<WriteView>) -> Ledger
    decreases writes.len(),
{
    if writes.len() == 0 {
        ledger
    } else {
        written(replayed(ledger, writes.drop_last()), writes.last())
    }
}

/// What a journal says: the view of each of its writes, in order.
pub open spec fn journal(writes: Seq<Write>) -> Seq<WriteView> {
    writes.map_values(|w: Write| w@)
}

/// Writes down that `value` is to be stored under `key`.
pub fn put(writes: &mut Vec<Write>, key: DataKey, value: Value)
    ensures
        journal(final(writes)@) == journal(old(writes)@).push(WriteView::Put(key@, value@)),
{
    let w = Write::Put(key, value);
    writes.push(w);
}

/// Writes down that the entry under `key` is to be removed.
pub fn remove(writes: &mut Vec<Write>, key: DataKey)
    ensures
        journal(final(writes)@) == journal(old(writes)@).push(WriteView::Remove(key@)),
{
    let w = Write::Remove(key);
    writes.push(w);
}

/// The writes that create `role` under `admin_role`: the existence mark
/// first, then the admin.
pub open spec fn creation_writes(role: Seq<char>, admin_role: Seq<char>) -> Seq<WriteView> {
    seq![
        WriteView::Put(DataKeyView::RoleExists(role), ValueView::Bool(true)),
        WriteView::Put(DataKeyView::RoleAdmin(role), ValueView::Symbol(admin_role)),
    ]
}

/// The write that makes `admin_role` the admin of `role`.
pub open spec fn admin_writes(role: Seq<char>, admin_role: Seq<char>) -> Seq<WriteView> {
    seq![WriteView::Put(DataKeyView::RoleAdmin(role), ValueView::Symbol(admin_role))]
}

/// The writes that grant `role` to `account` until `expiry`.
pub open spec fn grant_writes(role: Seq<char>, account: Seq<char>, expiry: u64) -> Seq<WriteView> {
    seq![
        WriteView::Put(DataKeyView::RoleMember(role, account), ValueView::Bool(true)),
        WriteView::Put(DataKeyView::RoleExpiry(role, account), ValueView::U64(expiry)),
    ]
}

/// The writes that take `role` away from `account`.
pub open spec fn removal_writes(role: Seq<char>, account: Seq<char>) -> Seq<WriteView> {
    seq![
        WriteView::Remove(DataKeyView::RoleMember(role, account)),
        WriteView::Remove(DataKeyView::RoleExpiry(role, account)),
    ]
}

/// The writes that mark the state as initialized for `admin`. The mark
/// comes first: whatever follows, the state is seen as initialized.
pub open spec fn initialization_writes(admin: Seq<char>) -> Seq<WriteView> {
    seq![
        WriteView::Put(DataKeyView::Initialized, ValueView::Bool(true)),
        WriteView::Put(DataKeyView::Deployer, ValueView::Address(admin)),
    ]
}

} // verus!
