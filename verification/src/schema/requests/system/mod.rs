//! Queries for compute systems and their properties.

use vstd::prelude::*;
use crate::schema::responses::system::SystemType;

verus! {

/// A property of a compute system that a query can ask for.
#[derive(Debug, Clone, Copy, PartialEq, Eq, Structural)]
pub enum PropertyType {
    Memory,
    GuestMemory,
    Statistics,
    ProcessList,
    TerminateOnLastHandleClosed,
    SharedMemoryRegion,
    GuestConnection,
}

impl Default for PropertyType {
    /// A query asks for the memory property unless told otherwise.
    fn default() -> (property: Self)
        ensures
            property == PropertyType::Memory,
    {
        PropertyType::Memory
    }
}

/// Asks a compute system for some of its properties.
#[derive(Debug, Clone, PartialEq)]
pub struct PropertyQuery {
    /// The properties asked for.
    pub property_types: Vec<PropertyType>,
}

impl Default for PropertyQuery {
    /// The query that asks for nothing.
    fn default() -> (query: Self)
        ensures
            query.property_types@ == Seq::<PropertyType>::empty(),
    {
        PropertyQuery { property_types: Vec::new() }
    }
}

/// Selects compute systems: by identifier, name, kind and owner. An empty
/// list selects by nothing.
#[derive(Debug, Clone, PartialEq)]
pub struct SystemQuery {
    pub ids: Vec<String>,
    pub names: Vec<String>,
    pub types: Vec<SystemType>,
    pub owners: Vec<String>,
}

impl Default for SystemQuery {
    /// The query that selects by nothing.
    fn default() -> (query: Self)
        ensures
            query.ids@ == Seq::<String>::empty(),
            query.names@ == Seq::<String>::empty(),
            query.types@ == Seq::<SystemType>::empty(),
            query.owners@ == Seq::<String>::empty(),
    {
        SystemQuery { ids: Vec::new(), names: Vec::new(), types: Vec::new(), owners: Vec::new() }
    }
}

} // verus!
