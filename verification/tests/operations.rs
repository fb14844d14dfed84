use hcs_rs::compute::defs::{HcsOperationType, HcsProcessInformation, NULL_HANDLE};
use hcs_rs::compute::errorcodes::ResultCode;
use hcs_rs::computecore::utilities::{
    wait_arrival, HcsOperation, HcsProcess, HcsSystem, OperationOutcome, OPERATION_CANCELLED,
    WAIT_TIMED_OUT,
};

fn document(text: &str) -> OperationOutcome {
    OperationOutcome { result: Ok(String::from(text)), process_info: HcsProcessInformation::default() }
}

fn failure(code: ResultCode) -> OperationOutcome {
    OperationOutcome { result: Err(code), process_info: HcsProcessInformation::default() }
}

fn pending_operation() -> HcsOperation {
    let mut operation = HcsOperation::create(0x1000, None, 0x40).unwrap();
    operation.notify_submitted(17, HcsOperationType::Start).unwrap();
    operation
}

#[test]
fn a_system_handle_is_closed_at_most_once() {
    let mut system = HcsSystem::wrap_handle(0x88);
    assert_eq!(system.get_handle(), 0x88);
    assert_eq!(system.take_handle(), Some(0x88));
    assert_eq!(system.get_handle(), NULL_HANDLE);
    assert_eq!(system.take_handle(), None);
    system.release_handle();
    assert_eq!(system.take_handle(), None);
}

#[test]
fn a_released_process_handle_is_never_closed() {
    let mut process = HcsProcess::wrap_handle(0x99);
    process.release_handle();
    assert_eq!(process.get_handle(), NULL_HANDLE);
    assert_eq!(process.take_handle(), None);
    process.release_handle();
    assert_eq!(process.take_handle(), None);
}

#[test]
fn an_operation_handle_is_closed_at_most_once() {
    let mut operation = HcsOperation::wrap_handle(0x40);
    assert_eq!(operation.get_handle(), 0x40);
    assert_eq!(operation.take_handle(), Some(0x40));
    assert_eq!(operation.take_handle(), None);
    let mut released = HcsOperation::wrap_handle(0x41);
    released.release_handle();
    released.release_handle();
    assert_eq!(released.get_handle(), NULL_HANDLE);
    assert_eq!(released.take_handle(), None);
}

#[test]
fn a_null_handle_owns_nothing() {
    let mut system = HcsSystem::wrap_handle(NULL_HANDLE);
    assert_eq!(system.take_handle(), None);
}

#[test]
fn create_binds_context_and_handle() {
    let operation = HcsOperation::create(0x1000, Some(0x2000), 0x40).unwrap();
    assert_eq!(operation.get_handle(), 0x40);
    assert_eq!(operation.get_context(), Ok(0x1000));
    assert_eq!(operation.get_type(), Ok(HcsOperationType::Unset));
    assert_eq!(operation.get_id(), Ok(0));
    assert!(!operation.is_pending());
    assert!(!operation.is_terminal());
}

#[test]
fn create_fails_as_the_platform_did() {
    let refused = HcsOperation::create(0x1000, None, NULL_HANDLE);
    assert_eq!(refused.err(), Some(ResultCode::OutOfMemory));
}

#[test]
fn result_of_an_operation_never_submitted_is_not_started() {
    let operation = HcsOperation::create(0x1000, None, 0x40).unwrap();
    assert_eq!(operation.get_result(), Err(ResultCode::HcsOperationNotStarted));
    assert_eq!(
        operation.get_result_and_process_info(),
        Err(ResultCode::HcsOperationNotStarted)
    );
}

#[test]
fn result_of_a_pending_operation_is_not_ready() {
    let operation = pending_operation();
    assert!(operation.is_pending());
    assert_eq!(operation.get_result(), Err(ResultCode::HcsOperationPending));
    assert_eq!(operation.get_type(), Ok(HcsOperationType::Start));
    assert_eq!(operation.get_id(), Ok(17));
}

#[test]
fn zero_timeout_wait_times_out_and_a_later_wait_completes() {
    let mut operation = pending_operation();
    assert_eq!(operation.wait_for_result(0, None), Err(ResultCode::HcsOperationTimeout));
    assert!(operation.is_pending());
    assert_eq!(operation.get_result(), Err(ResultCode::HcsOperationPending));
    assert_eq!(
        operation.wait_for_result(5000, Some(document("{\"Started\":true}"))),
        Ok(String::from("{\"Started\":true}"))
    );
    assert!(operation.is_terminal());
    assert_eq!(operation.get_result(), Ok(String::from("{\"Started\":true}")));
}

#[test]
fn wait_after_the_callback_fired_returns_the_stored_outcome() {
    let mut operation = pending_operation();
    operation.notify_completed(document("first"));
    assert_eq!(operation.wait_for_result(0, None), Ok(String::from("first")));
    assert_eq!(operation.wait_for_result(0, Some(document("second"))), Ok(String::from("first")));
    assert_eq!(operation.get_result(), Ok(String::from("first")));
}

#[test]
fn wait_on_an_operation_never_submitted_is_not_started() {
    let mut operation = HcsOperation::wrap_handle(0x40);
    assert_eq!(operation.wait_for_result(10, None), Err(ResultCode::HcsOperationNotStarted));
    assert_eq!(
        operation.wait_for_result(10, Some(document("stray"))),
        Err(ResultCode::HcsOperationNotStarted)
    );
    assert!(!operation.is_terminal());
}

#[test]
fn a_failed_operation_answers_with_its_code() {
    let mut operation = pending_operation();
    assert_eq!(
        operation.wait_for_result(100, Some(failure(ResultCode::HcsInvalidJson))),
        Err(ResultCode::HcsInvalidJson)
    );
    assert!(operation.is_terminal());
    assert_eq!(operation.get_result(), Err(ResultCode::HcsInvalidJson));
    assert_eq!(operation.get_result_and_process_info(), Err(ResultCode::HcsInvalidJson));
}

#[test]
fn cancel_after_completion_changes_nothing() {
    let mut operation = pending_operation();
    operation.notify_completed(document("done"));
    assert_eq!(operation.cancel(), Ok(()));
    assert_eq!(operation.get_result(), Ok(String::from("done")));
    assert_eq!(operation.cancel(), Ok(()));
    assert_eq!(operation.wait_for_result(0, None), Ok(String::from("done")));
}

#[test]
fn cancel_of_a_pending_operation_takes_effect() {
    let mut operation = pending_operation();
    assert_eq!(operation.cancel(), Ok(()));
    assert!(operation.is_terminal());
    assert!(!operation.is_pending());
    assert_eq!(OPERATION_CANCELLED, 0x800704C7);
    assert_eq!(operation.get_result(), Err(ResultCode::UnknownHResult(0x800704C7)));
    operation.notify_completed(document("late"));
    assert_eq!(operation.get_result(), Err(ResultCode::UnknownHResult(0x800704C7)));
    assert_eq!(operation.cancel(), Ok(()));
}

#[test]
fn cancel_before_submission_is_not_started() {
    let mut operation = HcsOperation::wrap_handle(0x40);
    assert_eq!(operation.cancel(), Err(ResultCode::HcsOperationNotStarted));
    assert!(!operation.is_terminal());
    assert_eq!(operation.notify_submitted(1, HcsOperationType::Pause), Ok(()));
    assert!(operation.is_pending());
}

#[test]
fn a_request_is_submitted_once() {
    let mut operation = pending_operation();
    assert_eq!(
        operation.notify_submitted(18, HcsOperationType::Save),
        Err(ResultCode::HcsOperationAlreadyStarted)
    );
    assert_eq!(operation.get_id(), Ok(17));
    assert_eq!(operation.get_type(), Ok(HcsOperationType::Start));
    operation.notify_completed(document("done"));
    assert_eq!(
        operation.notify_submitted(19, HcsOperationType::Save),
        Err(ResultCode::HcsOperationAlreadyStarted)
    );
}

#[test]
fn a_completion_before_submission_is_ignored() {
    let mut operation = HcsOperation::wrap_handle(0x40);
    operation.notify_completed(document("stray"));
    assert_eq!(operation.get_result(), Err(ResultCode::HcsOperationNotStarted));
}

#[test]
fn context_round_trip_before_and_after_rebinding_the_callback() {
    let mut operation = HcsOperation::create(0x1000, None, 0x40).unwrap();
    assert_eq!(operation.set_context(0x1111), Ok(()));
    assert_eq!(operation.get_context(), Ok(0x1111));
    assert_eq!(operation.set_callback(0x3000, Some(0x2000)), Ok(()));
    assert_eq!(operation.get_context(), Ok(0x1111));
    assert_eq!(operation.set_context(0x2222), Ok(()));
    assert_eq!(operation.get_context(), Ok(0x2222));
    assert_eq!(operation.set_context(usize::MAX), Ok(()));
    assert_eq!(operation.get_context(), Ok(usize::MAX));
}

#[test]
fn a_registered_callback_is_not_replaced() {
    let mut operation = HcsOperation::create(0x1000, Some(0x2000), 0x40).unwrap();
    assert_eq!(
        operation.set_callback(0x3000, Some(0x4000)),
        Err(ResultCode::HcsOperationSystemCallbackAlreadySet)
    );
    assert_eq!(operation.get_context(), Ok(0x1000));
    assert_eq!(operation.get_callback(), Some(0x2000));
    assert_eq!(operation.get_callback_context(), 0x1000);
    let mut bare = HcsOperation::wrap_handle(0x41);
    assert_eq!(bare.set_callback(0x3000, None), Ok(()));
    assert_eq!(bare.get_callback(), None);
    assert_eq!(bare.set_callback(0x3100, Some(0x4000)), Ok(()));
    assert_eq!(bare.get_callback(), Some(0x4000));
    assert_eq!(bare.get_callback_context(), 0x3100);
    assert_eq!(bare.get_context(), Ok(0));
    assert_eq!(
        bare.set_callback(0x3200, Some(0x5000)),
        Err(ResultCode::HcsOperationSystemCallbackAlreadySet)
    );
    assert_eq!(bare.get_callback(), Some(0x4000));
    assert_eq!(bare.get_callback_context(), 0x3100);
}

#[test]
fn process_information_comes_with_the_result() {
    let mut operation = HcsOperation::create(0, None, 0x40).unwrap();
    operation.notify_submitted(5, HcsOperationType::CreateProcess).unwrap();
    assert_eq!(
        operation.wait_for_result_and_process_info(0, None),
        Err(ResultCode::HcsOperationTimeout)
    );
    let info = HcsProcessInformation {
        process_id: 4242,
        reserved: 0,
        std_input: 0x10,
        std_output: 0x20,
        std_error: 0x30,
    };
    let outcome = OperationOutcome { result: Ok(String::from("{}")), process_info: info };
    assert_eq!(
        operation.wait_for_result_and_process_info(250, Some(outcome)),
        Ok((info, String::from("{}")))
    );
    assert_eq!(operation.get_result_and_process_info(), Ok((info, String::from("{}"))));
    assert_eq!(operation.get_result(), Ok(String::from("{}")));
}

#[test]
fn a_result_without_a_process_names_none() {
    let mut operation = pending_operation();
    operation.notify_completed(document("plain"));
    let (info, text) = operation.get_result_and_process_info().unwrap();
    assert_eq!(info, HcsProcessInformation::default());
    assert_eq!(info.process_id, 0);
    assert_eq!(info.std_input, NULL_HANDLE);
    assert_eq!(text, "plain");
}

#[test]
fn the_target_of_an_operation_gets_an_owner() {
    let operation = pending_operation();
    let mut system = operation.get_compute_system(0x77).ok().unwrap();
    assert_eq!(system.get_handle(), 0x77);
    assert_eq!(system.take_handle(), Some(0x77));
    let mut process = operation.get_process(0x78).ok().unwrap();
    assert_eq!(process.get_handle(), 0x78);
    assert_eq!(process.take_handle(), Some(0x78));
    let missing = operation.get_compute_system(NULL_HANDLE);
    assert_eq!(missing.err(), Some(ResultCode::Unexpected));
    let no_process = operation.get_process(NULL_HANDLE);
    assert_eq!(no_process.err(), Some(ResultCode::Unexpected));
}

#[test]
fn an_elapsed_wait_of_the_platform_delivers_nothing() {
    assert_eq!(WAIT_TIMED_OUT, 0x80370118);
    assert_eq!(wait_arrival(0x80370118, String::new(), HcsProcessInformation::default()), None);
}

#[test]
fn a_finished_wait_of_the_platform_delivers_the_outcome() {
    assert_eq!(
        wait_arrival(0, String::from("{}"), HcsProcessInformation::default()),
        Some(document("{}"))
    );
    assert_eq!(
        wait_arrival(0x80370106, String::from("ignored"), HcsProcessInformation::default()),
        Some(failure(ResultCode::HcsUnexpectedExit))
    );
    assert_eq!(
        wait_arrival(0x80370117, String::new(), HcsProcessInformation::default()),
        Some(failure(ResultCode::HcsOperationPending))
    );
}

#[test]
fn the_platform_wait_drives_the_operation() {
    let mut operation = pending_operation();
    let elapsed = wait_arrival(0x80370118, String::new(), HcsProcessInformation::default());
    assert_eq!(operation.wait_for_result(0, elapsed), Err(ResultCode::HcsOperationTimeout));
    assert!(operation.is_pending());
    let finished = wait_arrival(0, String::from("ok"), HcsProcessInformation::default());
    assert_eq!(operation.wait_for_result(1000, finished), Ok(String::from("ok")));
}

#[test]
fn operation_kinds_have_the_numbers_of_the_platform() {
    assert_eq!(HcsOperationType::from_raw(-1), Some(HcsOperationType::Unset));
    assert_eq!(HcsOperationType::from_raw(0), Some(HcsOperationType::Enumerate));
    assert_eq!(HcsOperationType::from_raw(2), Some(HcsOperationType::Start));
    assert_eq!(HcsOperationType::from_raw(10), Some(HcsOperationType::CreateProcess));
    assert_eq!(HcsOperationType::from_raw(15), Some(HcsOperationType::Crash));
    assert_eq!(HcsOperationType::from_raw(16), None);
    assert_eq!(HcsOperationType::from_raw(-2), None);
}
