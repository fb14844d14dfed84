//! Ownership of the compute service's native resources and the operations
//! issued against them.

pub mod utilities;
