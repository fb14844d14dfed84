use hcs_rs::compute::errorcodes::ResultCode;
use hcs_rs::compute::widestr::wide_string;
use hcs_rs::computenetwork::{hcn_result, ErrorResult};
use hcs_rs::computestorage::hcs_result;
use hcs_rs::schema::requests::system::{PropertyQuery, PropertyType, SystemQuery};
use hcs_rs::schema::responses::system::SystemType;

#[test]
fn a_zero_status_hands_the_value_on() {
    assert_eq!(hcs_result(0, String::from("C:\\mount")), Ok(String::from("C:\\mount")));
    assert_eq!(hcs_result(0, ()), Ok(()));
}

#[test]
fn a_failed_storage_call_gives_the_code_of_its_status() {
    assert_eq!(hcs_result(0x80070057, ()), Err(ResultCode::InvalidArgument));
    assert_eq!(hcs_result(0xC0370112, 5u8), Err(ResultCode::VmComputeInvalidLayer));
    assert_eq!(hcs_result(0x12345678, ()), Err(ResultCode::UnknownHResult(0x12345678)));
    assert_eq!(hcs_result(0x00350059, ()), Err(ResultCode::HvPendingPageRequests));
}

#[test]
fn a_failed_network_call_keeps_its_error_record() {
    let failed = hcn_result(0x803B0001, (), String::from("{\"Error\":\"no such network\"}"));
    let error = failed.err().unwrap();
    assert_eq!(error.error_record, "{\"Error\":\"no such network\"}");
    assert_eq!(error.result_code, ResultCode::HcnNetworkNotFound);
}

#[test]
fn a_successful_network_call_hands_the_value_on() {
    let listed = hcn_result(0, String::from("[]"), String::new());
    assert_eq!(listed.ok(), Some(String::from("[]")));
}

#[test]
fn an_error_result_translates_its_status() {
    let error = ErrorResult::new(String::from("record"), 0x803B0029);
    assert_eq!(error.error_record, "record");
    assert_eq!(error.result_code, ResultCode::GcnDefaultnamespaceExists);
    let unknown = ErrorResult::new(String::new(), 0x803B0030);
    assert_eq!(unknown.error_record, "");
    assert_eq!(unknown.result_code, ResultCode::UnknownHResult(0x803B0030));
}

#[test]
fn text_becomes_units_with_one_terminator() {
    assert_eq!(wide_string("ab"), Some(vec![0x61, 0x62, 0]));
    assert_eq!(wide_string(""), Some(vec![0]));
    assert_eq!(wide_string("C:\\layers\\a"), Some(vec![67, 58, 92, 108, 97, 121, 101, 114, 115, 92, 97, 0]));
}

#[test]
fn text_beyond_ascii_is_encoded_as_utf16() {
    assert_eq!(wide_string("\u{e9}"), Some(vec![0xE9, 0]));
    assert_eq!(wide_string("\u{20ac}x"), Some(vec![0x20AC, 0x78, 0]));
    assert_eq!(wide_string("\u{1f600}"), Some(vec![0xD83D, 0xDE00, 0]));
    assert_eq!(wide_string("\u{10000}\u{10ffff}"), Some(vec![0xD800, 0xDC00, 0xDBFF, 0xDFFF, 0]));
    assert_eq!(wide_string("\u{ffff}"), Some(vec![0xFFFF, 0]));
}

#[test]
fn text_with_the_character_zero_has_no_wide_form() {
    assert_eq!(wide_string("a\0b"), None);
    assert_eq!(wide_string("\0"), None);
    assert_eq!(wide_string("ab\0"), None);
}

#[test]
fn a_query_asks_for_memory_by_default() {
    assert_eq!(PropertyType::default(), PropertyType::Memory);
}

#[test]
fn default_queries_are_empty() {
    let properties = PropertyQuery::default();
    assert!(properties.property_types.is_empty());
    let systems = SystemQuery::default();
    assert!(systems.ids.is_empty());
    assert!(systems.names.is_empty());
    assert!(systems.types.is_empty());
    assert!(systems.owners.is_empty());
}

#[test]
fn queries_compare_by_their_fields() {
    let one = PropertyQuery { property_types: vec![PropertyType::Memory, PropertyType::Statistics] };
    let same = one.clone();
    assert_eq!(one, same);
    let systems = SystemQuery {
        ids: vec![String::from("a")],
        names: vec![],
        types: vec![SystemType::Container, SystemType::VirtualMachine],
        owners: vec![String::from("me")],
    };
    assert_eq!(systems.clone(), systems);
    assert!(systems != SystemQuery::default());
}
