//! Shapes of the documents exchanged with the compute service.

pub mod requests;
pub mod responses;
