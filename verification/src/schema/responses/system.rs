//! What the compute service says of a compute system.

use vstd::prelude::*;

verus! {

/// The kind of a compute system.
#[derive(Debug, Clone, Copy, PartialEq, Eq, Structural)]
pub enum SystemType {
    Container,
    VirtualMachine,
    Host,
}

} // verus!
