//! Service arguments that an address can carry.

use vstd::prelude::*;

verus! {

/// The payload types a service argument can carry.
#[derive(Debug, Clone, Copy, PartialEq, Eq, Structural)]
pub enum DataType {
    String,
    Int64,
    Uint64,
    Float64,
    Hash,
    Address,
    Time,
}

/// A named, typed service argument attached to an address.
#[derive(Debug, Clone)]
pub struct Argument {
    pub name: String,
    pub data_type: DataType,
}

/// The list of service arguments carried by an address.
#[derive(Debug, Clone)]
pub struct Arguments(pub Vec<Argument>);

impl Arguments {
    /// An argument list with nothing in it.
    pub fn empty() -> (r: Self)
        ensures
            r.0@.len() == 0,
    {
        Arguments(Vec::new())
    }
}

} // verus!
