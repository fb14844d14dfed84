//! Documents that the compute service answers with.

pub mod system;
