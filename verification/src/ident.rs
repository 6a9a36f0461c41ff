//! The two kinds of identifier that the access-control state is keyed by.
//!
//! Both are opaque names: the engine only ever asks whether two of them are
//! the same, so each is modelled by the sequence of its characters.

use vstd::prelude::*;
use vstd::std_specs::cmp::PartialEqSpecImpl;

verus! {

/// The name of the root role: the one role that administers itself, and the
/// one whose holders create roles and reassign admins.
pub const DEFAULT_ADMIN_ROLE: &'static str = "DEF_ADMIN";

/// The root role's name as a mathematical value.
pub open spec fn root_role() -> Seq<char> {
    DEFAULT_ADMIN_ROLE@
}

/// The name of a role.
#[derive(Debug, Eq, Hash)]
pub struct Symbol {
    name: String,
}

impl View for Symbol {
    type V = Seq<char>;

    closed spec fn view(&self) -> Seq<char> {
        self.name@
    }
}

impl Symbol {
    /// The symbol with the given name.
    pub fn new(name: &str) -> (s: Symbol)
        ensures
            s@ == name@,
    {
        Symbol { name: name.to_owned() }
    }

    /// The symbol's name.
    pub fn as_str(&self) -> (name: &str)
        ensures
            name@ == self@,
    {
        self.name.as_str()
    }
}

impl Clone for Symbol {
    fn clone(&self) -> (s: Symbol)
        ensures
            s@ == self@,
    {
        Symbol { name: self.name.clone() }
    }
}

impl PartialEq for Symbol {
    fn eq(&self, other: &Symbol) -> (r: bool) {
        self.name == other.name
    }
}

impl PartialEqSpecImpl for Symbol {
    open spec fn obeys_eq_spec() -> bool {
        true
    }

    open spec fn eq_spec(&self, other: &Symbol) -> bool {
        self@ == other@
    }
}

/// The identity of an account: whoever may hold a role or call an operation.
#[derive(Debug, Eq, Hash)]
pub struct Address {
    id: String,
}

impl View for Address {
    type V = Seq<char>;

    closed spec fn view(&self) -> Seq<char> {
        self.id@
    }
}

impl Address {
    /// The address written as `id`.
    pub fn new(id: &str) -> (a: Address)
        ensures
            a@ == id@,
    {
        Address { id: id.to_owned() }
    }

    /// The address as text.
    pub fn as_str(&self) -> (id: &str)
        ensures
            id@ == self@,
    {
        self.id.as_str()
    }
}

impl Clone for Address {
    fn clone(&self) -> (a: Address)
        ensures
            a@ == self@,
    {
        Address { id: self.id.clone() }
    }
}

impl PartialEq for Address {
    fn eq(&self, other: &Address) -> (r: bool) {
        self.id == other.id
    }
}

impl PartialEqSpecImpl for Address {
    open spec fn obeys_eq_spec() -> bool {
        true
    }

    open spec fn eq_spec(&self, other: &Address) -> bool {
        self@ == other@
    }
}

/// The name of a symbol that may be missing.
pub open spec fn symbol_name(symbol: Option<Symbol>) -> Option<Seq<char>> {
    match symbol {
        Some(s) => Some(s@),
        None => None,
    }
}

/// The name of an address that may be missing.
pub open spec fn address_name(address: Option<Address>) -> Option<Seq<char>> {
    match address {
        Some(a) => Some(a@),
        None => None,
    }
}

/// The root role as a symbol.
pub fn default_admin_role() -> (role: Symbol)
    ensures
        role@ == root_role(),
{
    Symbol::new(DEFAULT_ADMIN_ROLE)
}

} // verus!
