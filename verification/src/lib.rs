//! Client-side core for a host compute service: result codes, ownership of
//! native handles, and the lifecycle of asynchronous operations.
//!
//! Nothing here calls the platform. A call is built as a value, with its
//! arguments in the form the platform takes; whoever makes it hands the
//! status and the documents that came back to the function that reads them.
//! What lies between, which is all that decides, is verified.

use vstd::prelude::*;

pub mod compute;
pub mod computecore;
pub mod computenetwork;
pub mod computestorage;
pub mod schema;

verus! {

/// The result of a call against the host compute service.
pub type HcsResult<T> = Result<T, crate::compute::errorcodes::ResultCode>;

} // verus!
