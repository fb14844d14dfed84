//! Definitions shared by everything that talks to the host compute service.

pub mod defs;
pub mod errorcodes;
pub mod widestr;
