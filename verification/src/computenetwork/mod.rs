//! The calls of the host network service: each call with its arguments as
//! the platform takes them, and what its answer means.

use vstd::prelude::*;
use crate::compute::defs::Handle;
use crate::compute::errorcodes::{hresult_to_result_code, result_code_of, HResult, ResultCode};
use crate::compute::widestr::{has_wide_form, wide_form, wide_string};

verus! {

/// Handle to an open network.
pub type HcnNetworkHandle = Handle;

/// A globally unique identifier, in the four parts in which the platform lays it out.
#[derive(Debug, Clone, Copy, PartialEq, Eq)]
pub struct Guid {
    pub data1: u32,
    pub data2: u16,
    pub data3: u16,
    pub data4: [u8; 8],
}

/// A call of the host network service, with its arguments as the platform takes them.
#[derive(Debug, PartialEq, Eq)]
pub enum NetworkCall {
    /// Lists the networks that a query selects.
    EnumerateNetworks {
        query: Vec<u16>,
    },
    /// Creates the network with an identifier from its settings.
    CreateNetwork {
        id: Guid,
        settings: Vec<u16>,
    },
    /// Opens the network with an identifier.
    OpenNetwork {
        id: Guid,
    },
    /// Changes the settings of an open network.
    ModifyNetwork {
        network: HcnNetworkHandle,
        settings: Vec<u16>,
    },
    /// Asks an open network for the properties that a query selects.
    QueryNetworkProperties {
        network: Handle,
        query: Vec<u16>,
    },
    /// Deletes the network with an identifier.
    DeleteNetwork {
        id: Guid,
    },
    /// Closes an open network.
    CloseNetwork {
        network: Handle,
    },
}

/// Lists the networks that a query selects.
///
/// There is no call where a text holds the character zero: the platform
/// could not take it.
pub fn enumerate_networks(query: &str) -> (call: Option<NetworkCall>)
    ensures
        call is Some <==> has_wide_form(query@),
        call matches Some(made) ==> {
            &&& made matches NetworkCall::EnumerateNetworks { query: query_arg }
            &&& query_arg@ == wide_form(query@)
        },
{
    let query_wide = wide_string(query);
    if query_wide.is_none() {
        None
    } else {
        Some(NetworkCall::EnumerateNetworks { query: query_wide.unwrap() })
    }
}

/// Creates the network with an identifier from its settings.
///
/// There is no call where a text holds the character zero: the platform
/// could not take it.
pub fn create_network(id: &Guid, settings: &str) -> (call: Option<NetworkCall>)
    ensures
        call is Some <==> has_wide_form(settings@),
        call matches Some(made) ==> {
            &&& made matches NetworkCall::CreateNetwork { id: id_arg, settings: settings_arg }
            &&& id_arg == *id
            &&& settings_arg@ == wide_form(settings@)
        },
{
    let settings_wide = wide_string(settings);
    if settings_wide.is_none() {
        None
    } else {
        Some(NetworkCall::CreateNetwork { id: *id, settings: settings_wide.unwrap() })
    }
}

/// Opens the network with an identifier.
pub fn open_network(id: &Guid) -> (call: NetworkCall)
    ensures
        call == (NetworkCall::OpenNetwork { id: *id }),
{
    NetworkCall::OpenNetwork { id: *id }
}

/// Changes the settings of an open network.
///
/// There is no call where a text holds the character zero: the platform
/// could not take it.
pub fn modify_network(network: HcnNetworkHandle, settings: &str) -> (call: Option<NetworkCall>)
    ensures
        call is Some <==> has_wide_form(settings@),
        call matches Some(made) ==> {
            &&& made matches NetworkCall::ModifyNetwork { network: network_arg, settings: settings_arg }
            &&& network_arg == network
            &&& settings_arg@ == wide_form(settings@)
        },
{
    let settings_wide = wide_string(settings);
    if settings_wide.is_none() {
        None
    } else {
        Some(NetworkCall::ModifyNetwork { network, settings: settings_wide.unwrap() })
    }
}

/// Asks an open network for the properties that a query selects.
///
/// There is no call where a text holds the character zero: the platform
/// could not take it.
pub fn query_network_properties(network: HcnNetworkHandle, query: &str) -> (call: Option<NetworkCall>)
    ensures
        call is Some <==> has_wide_form(query@),
        call matches Some(made) ==> {
            &&& made matches NetworkCall::QueryNetworkProperties { network: network_arg, query: query_arg }
            &&& network_arg == network
            &&& query_arg@ == wide_form(query@)
        },
{
    let query_wide = wide_string(query);
    if query_wide.is_none() {
        None
    } else {
        Some(NetworkCall::QueryNetworkProperties { network, query: query_wide.unwrap() })
    }
}

/// Deletes the network with an identifier.
pub fn delete_network(id: &Guid) -> (call: NetworkCall)
    ensures
        call == (NetworkCall::DeleteNetwork { id: *id }),
{
    NetworkCall::DeleteNetwork { id: *id }
}

/// Closes an open network.
pub fn close_network(network: HcnNetworkHandle) -> (call: NetworkCall)
    ensures
        call == (NetworkCall::CloseNetwork { network }),
{
    NetworkCall::CloseNetwork { network }
}

/// A failed call of the host network service: the error record that the
/// service wrote, a JSON document, and the code of its status.
#[derive(Debug)]
pub struct ErrorResult {
    pub error_record: String,
    pub result_code: ResultCode,
}

impl ErrorResult {
    /// Keeps the error record as it came and translates the status.
    pub fn new(error_record: String, hresult: HResult) -> (error: ErrorResult)
        ensures
            error.error_record == error_record,
            error.result_code == result_code_of(hresult),
    {
        ErrorResult { error_record, result_code: hresult_to_result_code(&hresult) }
    }
}

/// The result of a call of the host network service, which on failure holds
/// the error record and the code of the status.
pub type HcnResult<T> = Result<T, ErrorResult>;

/// Turns the answer of a call of the host network service into its result:
/// the value where the status is zero, else the error record, unchanged,
/// with the code of the status.
pub fn hcn_result<T>(hresult: HResult, value: T, error_record: String) -> (result: HcnResult<T>)
    ensures
        hresult == 0 ==> result == Ok::<T, ErrorResult>(value),
        hresult != 0 ==> result == Err::<T, ErrorResult>(
            ErrorResult { error_record, result_code: result_code_of(hresult) },
        ),
{
    if hresult == 0 {
        Ok(value)
    } else {
        Err(ErrorResult::new(error_record, hresult))
    }
}

} // verus!
