//! Documents sent to the compute service.

pub mod system;
