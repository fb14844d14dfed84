//! Owners of native handles, and the controller of one asynchronous operation.
//!
//! An owner holds a handle until it is released; whoever tears the owner down
//! closes the handle that `take_handle` gives out, which it does at most once.
//! An operation is tracked from its creation to its outcome. The platform's
//! part arrives as plain values: the handle it allocated, the notice that a
//! request was submitted, the outcome it delivered.

use vstd::prelude::*;
use crate::compute::defs::{
    close_due, is_live, Context, DWord, Handle, HcsOperationCompletion, HcsOperationHandle,
    HcsOperationType, HcsProcessHandle, HcsProcessInformation, HcsSystemHandle, NULL_HANDLE,
};
use crate::compute::errorcodes::{
    has_name, hresult_to_result_code, names, result_code_of, HResult, ResultCode,
};
use crate::HcsResult;

verus! {

/// The status that the platform reports for a request that was cancelled. It
/// has no name among the result codes.
pub const OPERATION_CANCELLED: HResult = 0x800704C7;

/// Owner of the handle to a compute system.
pub struct HcsSystem {
    handle: HcsSystemHandle,
}

impl View for HcsSystem {
    type V = Handle;

    /// The handle that is owned, or `NULL_HANDLE` once it was released.
    closed spec fn view(&self) -> Handle {
        self.handle
    }
}

impl HcsSystem {
    /// Takes ownership of a handle that the platform gave out.
    pub fn wrap_handle(handle: Handle) -> (system: HcsSystem)
        ensures
            system@ == handle,
    {
        HcsSystem { handle }
    }

    /// The handle, for passing to the platform. Ownership stays here.
    pub fn get_handle(&self) -> (handle: Handle)
        ensures
            handle == self@,
    {
        self.handle
    }

    /// Gives the handle up without closing it: from now on nothing is owned.
    pub fn release_handle(&mut self)
        ensures
            final(self)@ == NULL_HANDLE,
    {
        self.handle = NULL_HANDLE;
    }

    /// Hands out the handle for closing and gives it up. A live handle comes
    /// out once; after that, and after a release, nothing does.
    pub fn take_handle(&mut self) -> (due: Option<Handle>)
        ensures
            due == close_due(old(self)@),
            final(self)@ == NULL_HANDLE,
    {
        let handle = self.handle;
        self.handle = NULL_HANDLE;
        if handle != NULL_HANDLE {
            Some(handle)
        } else {
            None
        }
    }
}

/// Owner of the handle to a process in a compute system.
pub struct HcsProcess {
    handle: HcsProcessHandle,
}

impl View for HcsProcess {
    type V = Handle;

    /// The handle that is owned, or `NULL_HANDLE` once it was released.
    closed spec fn view(&self) -> Handle {
        self.handle
    }
}

impl HcsProcess {
    /// Takes ownership of a handle that the platform gave out.
    pub fn wrap_handle(handle: Handle) -> (process: HcsProcess)
        ensures
            process@ == handle,
    {
        HcsProcess { handle }
    }

    /// The handle, for passing to the platform. Ownership stays here.
    pub fn get_handle(&self) -> (handle: Handle)
        ensures
            handle == self@,
    {
        self.handle
    }

    /// Gives the handle up without closing it: from now on nothing is owned.
    pub fn release_handle(&mut self)
        ensures
            final(self)@ == NULL_HANDLE,
    {
        self.handle = NULL_HANDLE;
    }

    /// Hands out the handle for closing and gives it up. A live handle comes
    /// out once; after that, and after a release, nothing does.
    pub fn take_handle(&mut self) -> (due: Option<Handle>)
        ensures
            due == close_due(old(self)@),
            final(self)@ == NULL_HANDLE,
    {
        let handle = self.handle;
        self.handle = NULL_HANDLE;
        if handle != NULL_HANDLE {
            Some(handle)
        } else {
            None
        }
    }
}

/// What an operation resolved to: its result document, or the code it failed
/// with, and the start information of the process where it created one.
#[derive(Debug, PartialEq, Eq)]
pub struct OperationOutcome {
    /// The result document, or the code of the failure.
    pub result: HcsResult<String>,
    /// Start information of the created process; for other requests it names
    /// no process.
    pub process_info: HcsProcessInformation,
}

/// Where an operation stands.
#[derive(Debug, PartialEq, Eq)]
pub enum OperationState {
    /// Created, no request submitted.
    Created,
    /// A request was submitted and has not resolved.
    Pending,
    /// The request resolved with this outcome.
    Completed(OperationOutcome),
    /// The request was cancelled while it was pending.
    Cancelled,
}

/// The mathematical value of an operation.
pub struct OperationView {
    /// The native handle, or `NULL_HANDLE` once it was released.
    pub handle: Handle,
    /// The identifier that the platform assigned when the request was submitted.
    pub id: u64,
    /// The request that the operation tracks.
    pub kind: HcsOperationType,
    /// The caller's context.
    pub context: Context,
    /// The completion routine, if one is registered.
    pub callback: HcsOperationCompletion,
    /// The context that the completion routine is called with.
    pub callback_context: Context,
    /// Where the operation stands.
    pub state: OperationState,
}

impl OperationView {
    /// An operation adopted by its handle alone: nothing else is known of it.
    pub open spec fn adopted(handle: Handle) -> OperationView {
        OperationView {
            handle,
            id: 0,
            kind: HcsOperationType::Unset,
            context: 0,
            callback: None,
            callback_context: 0,
            state: OperationState::Created,
        }
    }

    /// A fresh operation bound to a context and a completion routine.
    pub open spec fn created(
        handle: Handle,
        context: Context,
        callback: HcsOperationCompletion,
    ) -> OperationView {
        OperationView {
            handle,
            id: 0,
            kind: HcsOperationType::Unset,
            context,
            callback,
            callback_context: context,
            state: OperationState::Created,
        }
    }

    /// The handle is still owned.
    pub open spec fn is_live(self) -> bool {
        is_live(self.handle)
    }

    /// What is still to be closed.
    pub open spec fn close_due(self) -> Option<Handle> {
        close_due(self.handle)
    }

    /// The operation resolved or was cancelled.
    pub open spec fn is_terminal(self) -> bool {
        self.state is Completed || self.state is Cancelled
    }

    /// The same operation with its handle given up.
    pub open spec fn released(self) -> OperationView {
        OperationView { handle: NULL_HANDLE, ..self }
    }

    /// The same operation with another context.
    pub open spec fn with_context(self, context: Context) -> OperationView {
        OperationView { context, ..self }
    }

    /// What registering a completion routine answers: a registered routine
    /// is not replaced.
    pub open spec fn callback_result(self) -> HcsResult<()> {
        if self.callback is Some {
            Err(ResultCode::HcsOperationSystemCallbackAlreadySet)
        } else {
            Ok(())
        }
    }

    /// The operation after registering a completion routine with its context.
    pub open spec fn with_callback(
        self,
        context: Context,
        callback: HcsOperationCompletion,
    ) -> OperationView {
        if self.callback is Some {
            self
        } else {
            OperationView { callback, callback_context: context, ..self }
        }
    }

    /// What the notice of a submission answers: a request is submitted once.
    pub open spec fn submit_result(self) -> HcsResult<()> {
        if self.state is Created {
            Ok(())
        } else {
            Err(ResultCode::HcsOperationAlreadyStarted)
        }
    }

    /// The operation after its request was submitted.
    pub open spec fn submitted(self, id: u64, kind: HcsOperationType) -> OperationView {
        if self.state is Created {
            OperationView { id, kind, state: OperationState::Pending, ..self }
        } else {
            self
        }
    }

    /// The operation after the platform delivered an outcome: a pending
    /// operation takes it, any other keeps what it has.
    pub open spec fn completed(self, outcome: OperationOutcome) -> OperationView {
        if self.state is Pending {
            OperationView { state: OperationState::Completed(outcome), ..self }
        } else {
            self
        }
    }

    /// The result as it stands now.
    pub open spec fn result(self) -> HcsResult<String> {
        match self.state {
            OperationState::Created => Err(ResultCode::HcsOperationNotStarted),
            OperationState::Pending => Err(ResultCode::HcsOperationPending),
            OperationState::Completed(outcome) => outcome.result,
            OperationState::Cancelled => Err(ResultCode::UnknownHResult(OPERATION_CANCELLED)),
        }
    }

    /// The process start information that came with the outcome; before an
    /// outcome came, it names no process.
    pub open spec fn process_info(self) -> HcsProcessInformation {
        match self.state {
            OperationState::Completed(outcome) => outcome.process_info,
            _ => HcsProcessInformation {
                process_id: 0,
                reserved: 0,
                std_input: NULL_HANDLE,
                std_output: NULL_HANDLE,
                std_error: NULL_HANDLE,
            },
        }
    }

    /// The result as it stands now, with the process start information.
    pub open spec fn result_and_process_info(self) -> HcsResult<(HcsProcessInformation, String)> {
        match self.result() {
            Ok(document) => Ok((self.process_info(), document)),
            Err(code) => Err(code),
        }
    }

    /// A wait that found the operation pending and ended with nothing delivered.
    pub open spec fn wait_elapsed(self, arrival: Option<OperationOutcome>) -> bool {
        self.state is Pending && arrival is None
    }

    /// The operation after a wait during which `arrival` was delivered.
    pub open spec fn waited(self, arrival: Option<OperationOutcome>) -> OperationView {
        match arrival {
            Some(outcome) => self.completed(outcome),
            None => self,
        }
    }

    /// What a wait answers.
    pub open spec fn wait_result(self, arrival: Option<OperationOutcome>) -> HcsResult<String> {
        if self.wait_elapsed(arrival) {
            Err(ResultCode::HcsOperationTimeout)
        } else {
            self.waited(arrival).result()
        }
    }

    /// What a wait for the process start information answers.
    pub open spec fn wait_result_and_process_info(
        self,
        arrival: Option<OperationOutcome>,
    ) -> HcsResult<(HcsProcessInformation, String)> {
        if self.wait_elapsed(arrival) {
            Err(ResultCode::HcsOperationTimeout)
        } else {
            self.waited(arrival).result_and_process_info()
        }
    }

    /// What a request to cancel answers.
    pub open spec fn cancel_result(self) -> HcsResult<()> {
        if self.state is Created {
            Err(ResultCode::HcsOperationNotStarted)
        } else {
            Ok(())
        }
    }

    /// The operation after a request to cancel: only a pending one changes.
    pub open spec fn cancelled(self) -> OperationView {
        if self.state is Pending {
            OperationView { state: OperationState::Cancelled, ..self }
        } else {
            self
        }
    }
}

/// The status with which a wait of the platform ends when its time is up.
pub const WAIT_TIMED_OUT: HResult = 0x80370118;

/// What a wait of the platform delivered, from the status it ended with:
/// nothing where its time was up, the result document where it succeeded,
/// and else the failure that the operation resolved to.
pub open spec fn arrival_of(
    hresult: HResult,
    document: String,
    process_info: HcsProcessInformation,
) -> Option<OperationOutcome> {
    if hresult == WAIT_TIMED_OUT {
        None
    } else if hresult == 0 {
        Some(OperationOutcome { result: Ok(document), process_info })
    } else {
        Some(OperationOutcome { result: Err(result_code_of(hresult)), process_info })
    }
}

/// Reads the answer of a wait of the platform as what arrived during it.
pub fn wait_arrival(
    hresult: HResult,
    document: String,
    process_info: HcsProcessInformation,
) -> (arrival: Option<OperationOutcome>)
    ensures
        arrival == arrival_of(hresult, document, process_info),
{
    if hresult == WAIT_TIMED_OUT {
        None
    } else if hresult == 0 {
        Some(OperationOutcome { result: Ok(document), process_info })
    } else {
        Some(OperationOutcome { result: Err(hresult_to_result_code(&hresult)), process_info })
    }
}

/// Owner of the handle to an operation, and controller of its lifecycle.
pub struct HcsOperation {
    handle: HcsOperationHandle,
    id: u64,
    kind: HcsOperationType,
    context: Context,
    callback: HcsOperationCompletion,
    callback_context: Context,
    state: OperationState,
}

impl View for HcsOperation {
    type V = OperationView;

    closed spec fn view(&self) -> OperationView {
        OperationView {
            handle: self.handle,
            id: self.id,
            kind: self.kind,
            context: self.context,
            callback: self.callback,
            callback_context: self.callback_context,
            state: self.state,
        }
    }
}

/// A copy of a result.
fn copy_result(result: &HcsResult<String>) -> (copy: HcsResult<String>)
    ensures
        copy == *result,
{
    match result {
        Ok(document) => Ok(document.clone()),
        Err(code) => Err(*code),
    }
}

impl HcsOperation {
    /// Takes ownership of the handle of an operation that exists at the
    /// platform. Nothing else is known of it: it starts as a fresh one.
    pub fn wrap_handle(handle: Handle) -> (operation: HcsOperation)
        ensures
            operation@ == OperationView::adopted(handle),
    {
        HcsOperation {
            handle,
            id: 0,
            kind: HcsOperationType::Unset,
            context: 0,
            callback: None,
            callback_context: 0,
            state: OperationState::Created,
        }
    }

    /// The handle, for passing to the platform. Ownership stays here.
    pub fn get_handle(&self) -> (handle: Handle)
        ensures
            handle == self@.handle,
    {
        self.handle
    }

    /// Gives the handle up without closing it, for handing it to another owner.
    pub fn release_handle(&mut self)
        ensures
            final(self)@ == old(self)@.released(),
    {
        self.handle = NULL_HANDLE;
    }

    /// Hands out the handle for closing and gives it up. A live handle comes
    /// out once; after that, and after a release, nothing does.
    pub fn take_handle(&mut self) -> (due: Option<Handle>)
        ensures
            due == old(self)@.close_due(),
            final(self)@ == old(self)@.released(),
    {
        let handle = self.handle;
        self.handle = NULL_HANDLE;
        if handle != NULL_HANDLE {
            Some(handle)
        } else {
            None
        }
    }

    /// Creates an operation bound to `context` and `callback` around the
    /// handle that the platform allocated for it. A null handle means that
    /// the platform could not allocate one: the creation fails for want of
    /// memory.
    pub fn create(
        context: Context,
        callback: HcsOperationCompletion,
        allocated: HcsOperationHandle,
    ) -> (created: HcsResult<HcsOperation>)
        ensures
            is_live(allocated) ==> created is Ok && created->Ok_0@ == OperationView::created(
                allocated,
                context,
                callback,
            ),
            !is_live(allocated) ==> created is Err && created->Err_0 == ResultCode::OutOfMemory,
    {
        if allocated == NULL_HANDLE {
            Err(ResultCode::OutOfMemory)
        } else {
            Ok(
                HcsOperation {
                    handle: allocated,
                    id: 0,
                    kind: HcsOperationType::Unset,
                    context,
                    callback,
                    callback_context: context,
                    state: OperationState::Created,
                },
            )
        }
    }

    /// Replaces the caller's context. Nothing else changes.
    pub fn set_context(&mut self, context: Context) -> (done: HcsResult<()>)
        requires
            old(self)@.is_live(),
        ensures
            done is Ok,
            final(self)@ == old(self)@.with_context(context),
    {
        self.context = context;
        Ok(())
    }

    /// The caller's context, as it was last set.
    pub fn get_context(&self) -> (context: HcsResult<Context>)
        requires
            self@.is_live(),
        ensures
            context == Ok::<Context, ResultCode>(self@.context),
    {
        Ok(self.context)
    }

    /// The completion routine that is registered, if any.
    pub fn get_callback(&self) -> (callback: HcsOperationCompletion)
        ensures
            callback == self@.callback,
    {
        self.callback
    }

    /// The context that the completion routine is called with.
    pub fn get_callback_context(&self) -> (context: Context)
        ensures
            context == self@.callback_context,
    {
        self.callback_context
    }

    /// Owner of the compute system that the operation works on. The platform
    /// looks it up: `found` is the handle it answered with, null where it
    /// found none, which is not expected of a live operation.
    pub fn get_compute_system(&self, found: HcsSystemHandle) -> (system: HcsResult<HcsSystem>)
        requires
            self@.is_live(),
        ensures
            is_live(found) ==> system is Ok && system->Ok_0@ == found,
            !is_live(found) ==> system is Err && system->Err_0 == ResultCode::Unexpected,
    {
        if found == NULL_HANDLE {
            Err(ResultCode::Unexpected)
        } else {
            Ok(HcsSystem::wrap_handle(found))
        }
    }

    /// Owner of the process that the operation works on. The platform
    /// looks it up: `found` is the handle it answered with, null where it
    /// found none, which is not expected of a live operation.
    pub fn get_process(&self, found: HcsProcessHandle) -> (process: HcsResult<HcsProcess>)
        requires
            self@.is_live(),
        ensures
            is_live(found) ==> process is Ok && process->Ok_0@ == found,
            !is_live(found) ==> process is Err && process->Err_0 == ResultCode::Unexpected,
    {
        if found == NULL_HANDLE {
            Err(ResultCode::Unexpected)
        } else {
            Ok(HcsProcess::wrap_handle(found))
        }
    }

    /// The request that the operation tracks.
    pub fn get_type(&self) -> (kind: HcsResult<HcsOperationType>)
        requires
            self@.is_live(),
        ensures
            kind == Ok::<HcsOperationType, ResultCode>(self@.kind),
    {
        Ok(self.kind)
    }

    /// The identifier that the platform assigned to the operation.
    pub fn get_id(&self) -> (id: HcsResult<u64>)
        requires
            self@.is_live(),
        ensures
            id == Ok::<u64, ResultCode>(self@.id),
    {
        Ok(self.id)
    }

    /// Whether a request is submitted and unresolved: only then does a wait
    /// have anything to block on.
    pub fn is_pending(&self) -> (pending: bool)
        ensures
            pending == (self@.state is Pending),
    {
        match &self.state {
            OperationState::Pending => true,
            _ => false,
        }
    }

    /// Whether the operation resolved or was cancelled.
    pub fn is_terminal(&self) -> (terminal: bool)
        ensures
            terminal == self@.is_terminal(),
    {
        match &self.state {
            OperationState::Completed(_) => true,
            OperationState::Cancelled => true,
            _ => false,
        }
    }

    /// The result document of a resolved operation. An operation that was
    /// never submitted answers that it has not started, a pending one that
    /// it is still running.
    pub fn get_result(&self) -> (result: HcsResult<String>)
        requires
            self@.is_live(),
        ensures
            result == self@.result(),
    {
        match &self.state {
            OperationState::Created => Err(ResultCode::HcsOperationNotStarted),
            OperationState::Pending => Err(ResultCode::HcsOperationPending),
            OperationState::Completed(outcome) => copy_result(&outcome.result),
            OperationState::Cancelled => Err(ResultCode::UnknownHResult(OPERATION_CANCELLED)),
        }
    }

    /// The result document of a resolved operation together with the start
    /// information of the process it created.
    pub fn get_result_and_process_info(&self) -> (result: HcsResult<
        (HcsProcessInformation, String),
    >)
        requires
            self@.is_live(),
        ensures
            result == self@.result_and_process_info(),
    {
        let process_info = match &self.state {
            OperationState::Completed(outcome) => outcome.process_info,
            _ => HcsProcessInformation::default(),
        };
        match self.get_result() {
            Ok(document) => Ok((process_info, document)),
            Err(code) => Err(code),
        }
    }

    /// Ends a wait for the result. `arrival` is what the platform delivered
    /// while the caller blocked for up to `timeout_ms`, or `None` where the
    /// wait ended with nothing. A resolved operation answers with the outcome
    /// it holds, whatever arrived. A pending one takes what arrived; where
    /// nothing did, the answer is a timeout and the operation stays pending.
    #[allow(unused_variables)]
    pub fn wait_for_result(
        &mut self,
        timeout_ms: DWord,
        arrival: Option<OperationOutcome>,
    ) -> (result: HcsResult<String>)
        requires
            old(self)@.is_live(),
        ensures
            result == old(self)@.wait_result(arrival),
            final(self)@ == old(self)@.waited(arrival),
    {
        if self.is_pending() {
            match arrival {
                Some(outcome) => {
                    self.state = OperationState::Completed(outcome);
                },
                None => {
                    return Err(ResultCode::HcsOperationTimeout);
                },
            }
        }
        self.get_result()
    }

    /// Ends a wait for the result and the process start information, as
    /// `wait_for_result` does for the result alone.
    #[allow(unused_variables)]
    pub fn wait_for_result_and_process_info(
        &mut self,
        timeout_ms: DWord,
        arrival: Option<OperationOutcome>,
    ) -> (result: HcsResult<(HcsProcessInformation, String)>)
        requires
            old(self)@.is_live(),
        ensures
            result == old(self)@.wait_result_and_process_info(arrival),
            final(self)@ == old(self)@.waited(arrival),
    {
        if self.is_pending() {
            match arrival {
                Some(outcome) => {
                    self.state = OperationState::Completed(outcome);
                },
                None => {
                    return Err(ResultCode::HcsOperationTimeout);
                },
            }
        }
        self.get_result_and_process_info()
    }

    /// Registers the completion routine and the context it is called with.
    /// A routine that is already registered stays, and the call fails.
    pub fn set_callback(&mut self, context: Context, callback: HcsOperationCompletion) -> (done:
        HcsResult<()>)
        requires
            old(self)@.is_live(),
        ensures
            done == old(self)@.callback_result(),
            final(self)@ == old(self)@.with_callback(context, callback),
    {
        if self.callback.is_some() {
            Err(ResultCode::HcsOperationSystemCallbackAlreadySet)
        } else {
            self.callback = callback;
            self.callback_context = context;
            Ok(())
        }
    }

    /// Requests cancellation. A pending operation becomes cancelled; one that
    /// resolved or was cancelled before stays as it is and the call succeeds;
    /// one that was never submitted answers that it has not started.
    pub fn cancel(&mut self) -> (done: HcsResult<()>)
        requires
            old(self)@.is_live(),
        ensures
            done == old(self)@.cancel_result(),
            final(self)@ == old(self)@.cancelled(),
    {
        match &self.state {
            OperationState::Created => Err(ResultCode::HcsOperationNotStarted),
            OperationState::Pending => {
                self.state = OperationState::Cancelled;
                Ok(())
            },
            _ => Ok(()),
        }
    }

    /// Takes note that a request was submitted for this operation, with the
    /// identifier and the kind that the platform gave it. A request is
    /// submitted once: a second notice fails and changes nothing.
    pub fn notify_submitted(&mut self, id: u64, kind: HcsOperationType) -> (done: HcsResult<()>)
        requires
            old(self)@.is_live(),
        ensures
            done == old(self)@.submit_result(),
            final(self)@ == old(self)@.submitted(id, kind),
    {
        match &self.state {
            OperationState::Created => {
                self.id = id;
                self.kind = kind;
                self.state = OperationState::Pending;
                Ok(())
            },
            _ => Err(ResultCode::HcsOperationAlreadyStarted),
        }
    }

    /// Takes the outcome that the platform delivered to the completion
    /// routine. The first outcome stands: only a pending operation takes it.
    pub fn notify_completed(&mut self, outcome: OperationOutcome)
        requires
            old(self)@.is_live(),
        ensures
            final(self)@ == old(self)@.completed(outcome),
    {
        if self.is_pending() {
            self.state = OperationState::Completed(outcome);
        }
    }
}

/// The status of an elapsed wait is the one named `HcsOperationTimeout`, and
/// the status of a cancelled request has no name.
pub proof fn lemma_operation_statuses()
    ensures
        names(ResultCode::HcsOperationTimeout, WAIT_TIMED_OUT),
        !has_name(OPERATION_CANCELLED),
        result_code_of(OPERATION_CANCELLED) == ResultCode::UnknownHResult(OPERATION_CANCELLED),
{
    assert forall|code: ResultCode| !names(code, OPERATION_CANCELLED) by {}
}

/// A handle is closed at most once: after it was released or handed out for
/// closing, nothing is left to close, and releasing again changes nothing.
pub proof fn lemma_release_is_idempotent(operation: OperationView)
    ensures
        operation.released().close_due() is None,
        operation.released().released() == operation.released(),
        close_due(NULL_HANDLE) is None,
{
}

/// Once an outcome was delivered to a pending operation, nothing is left to
/// block on: a wait answers with that outcome and leaves the operation as it
/// is, whatever arrives during the wait.
pub proof fn lemma_wait_after_completion(
    operation: OperationView,
    outcome: OperationOutcome,
    arrival: Option<OperationOutcome>,
)
    requires
        operation.state is Pending,
    ensures
        !(operation.completed(outcome).state is Pending),
        operation.completed(outcome).wait_result(arrival) == outcome.result,
        operation.completed(outcome).waited(arrival) == operation.completed(outcome),
{
}

/// Cancelling an operation that resolved or was cancelled succeeds and
/// changes nothing: the result it answers with stays the same.
pub proof fn lemma_cancel_after_completion(operation: OperationView)
    requires
        operation.is_terminal(),
    ensures
        operation.cancel_result() is Ok,
        operation.cancelled() == operation,
        operation.cancelled().result() == operation.result(),
{
}

/// The first of a completion and a cancellation stands: a cancelled
/// operation ignores a later outcome.
pub proof fn lemma_first_resolution_stands(operation: OperationView, outcome: OperationOutcome)
    requires
        operation.state is Pending,
    ensures
        operation.cancelled().completed(outcome) == operation.cancelled(),
        operation.completed(outcome).cancelled() == operation.completed(outcome),
{
}

/// A wait that ends with nothing delivered leaves the operation pending, and
/// a later wait during which the outcome arrives answers with it.
pub proof fn lemma_wait_again_after_timeout(operation: OperationView, outcome: OperationOutcome)
    requires
        operation.state is Pending,
    ensures
        operation.wait_result(None) == Err::<String, ResultCode>(ResultCode::HcsOperationTimeout),
        operation.waited(None) == operation,
        operation.waited(None).wait_result(Some(outcome)) == outcome.result,
{
}

/// The context that was set is the context that is read, before and after a
/// completion routine is registered, and whether or not the registration
/// comes in between.
pub proof fn lemma_context_round_trip(
    operation: OperationView,
    context: Context,
    callback_context: Context,
    callback: HcsOperationCompletion,
)
    ensures
        operation.with_context(context).context == context,
        operation.with_callback(callback_context, callback).with_context(context).context
            == context,
        operation.with_context(context).with_callback(callback_context, callback).context
            == context,
{
}

} // verus!
