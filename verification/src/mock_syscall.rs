//! An operation that gives what it was told to give, for tests.

use vstd::prelude::*;

use crate::clock::Instant;
use crate::failure::Failure;
use crate::json::{json_model, json_string, Json};
use crate::syscall_executor::{is_execution_of, settles_to, Execution};
use crate::syscall_types::{
    document_hash_text, hash_snapshot, tells_of, Syscall, SyscallCategory, SyscallMetadata,
    SyscallResult,
};

verus! {

/// An operation with a fixed snapshot of its inputs and a fixed outcome.
///
/// Its outputs are the payload of a success, and the message of an error as
/// a string document. Its records carry its identifier, category and point in
/// time, the duration that they are given, and both digests.
#[derive(Debug, PartialEq)]
pub struct MockSyscall {
    /// The identifier of every record.
    pub id: uuid::Uuid,
    /// The category of every record.
    pub category: SyscallCategory,
    /// The point in time of every record.
    pub timestamp: Instant,
    /// What is given for the inputs.
    pub inputs: serde_json::Value,
    /// What running the operation gives.
    pub outcome: Result<SyscallResult, Failure>,
}

/// The document that stands for the outputs of a result.
pub open spec fn output_document(result: SyscallResult) -> Json {
    match result {
        SyscallResult::Success(payload) => json_model(payload),
        SyscallResult::Error(message) => Json::String(message@),
    }
}

/// A result equal to the one given.
fn same_result(result: &SyscallResult) -> (copy: SyscallResult)
    ensures
        copy == *result,
{
    match result {
        SyscallResult::Success(payload) => SyscallResult::Success(payload.clone()),
        SyscallResult::Error(message) => SyscallResult::Error(message.clone()),
    }
}

/// A failure equal to the one given.
fn same_failure(failure: &Failure) -> (copy: Failure)
    ensures
        copy == *failure,
{
    Failure { kind: failure.kind, message: failure.message.clone() }
}

impl MockSyscall {
    /// An operation that gives `inputs` for its inputs and `outcome` when it
    /// is run.
    pub fn new(
        id: uuid::Uuid,
        category: SyscallCategory,
        timestamp: Instant,
        inputs: serde_json::Value,
        outcome: Result<SyscallResult, Failure>,
    ) -> (syscall: MockSyscall)
        ensures
            syscall == (MockSyscall { id, category, timestamp, inputs, outcome }),
    {
        MockSyscall { id, category, timestamp, inputs, outcome }
    }
}

impl Syscall for MockSyscall {
    /// Running gives the fixed outcome.
    open spec fn runs_to(&self, outcome: Result<SyscallResult, Failure>) -> bool {
        outcome == self.outcome
    }

    /// The inputs are the fixed snapshot.
    open spec fn has_inputs(&self, snapshot: Result<serde_json::Value, Failure>) -> bool {
        snapshot == Ok::<serde_json::Value, Failure>(self.inputs)
    }

    /// The outputs are always taken, and hold the document of the result.
    open spec fn has_outputs(
        &self,
        result: SyscallResult,
        snapshot: Result<serde_json::Value, Failure>,
    ) -> bool {
        snapshot matches Ok(produced) && json_model(produced) == output_document(result)
    }

    /// A record carries what the operation was made with, the duration given,
    /// and the digests of the inputs and of the outputs of the result.
    open spec fn records(
        &self,
        result: SyscallResult,
        duration_ms: u64,
        record: SyscallMetadata,
    ) -> bool {
        &&& record.id == self.id
        &&& record.category == self.category
        &&& record.timestamp == self.timestamp
        &&& record.caller_info is None
        &&& record.duration_ms == duration_ms
        &&& record.inputs_hash@ == document_hash_text(json_model(self.inputs))
        &&& record.outputs_hash@ == document_hash_text(output_document(result))
        &&& record.persistence_id is None
    }

    fn name(&self) -> &'static str {
        "Mock_Syscall"
    }

    fn execute(&self) -> (outcome: Result<SyscallResult, Failure>) {
        match &self.outcome {
            Ok(result) => Ok(same_result(result)),
            Err(failure) => Err(same_failure(failure)),
        }
    }

    fn inputs(&self) -> (snapshot: Result<serde_json::Value, Failure>) {
        Ok(self.inputs.clone())
    }

    fn outputs(&self, result: &SyscallResult) -> (snapshot: Result<serde_json::Value, Failure>) {
        match result {
            SyscallResult::Success(payload) => Ok(payload.clone()),
            SyscallResult::Error(message) => Ok(json_string(message.as_str())),
        }
    }

    fn metadata(&self, result: &SyscallResult, duration_ms: u64) -> (record: SyscallMetadata) {
        let inputs_hash = hash_snapshot(self.inputs()).unwrap();
        let outputs_hash = hash_snapshot(self.outputs(result)).unwrap();
        let error_message = match result {
            SyscallResult::Success(_) => None,
            SyscallResult::Error(message) => Some(message.clone()),
        };
        SyscallMetadata {
            id: self.id.clone(),
            category: self.category,
            timestamp: self.timestamp,
            caller_info: None,
            duration_ms,
            successful: error_message.is_none(),
            error_message,
            inputs_hash,
            outputs_hash,
            persistence_id: None,
        }
    }
}

/// A run of this operation is always returned. It holds what the fixed
/// outcome is turned into, the digest of the fixed inputs, the digest of the
/// document of that result, and a record that tells of that result and
/// carries the run's duration and both digests.
pub proof fn mock_run_is_returned(
    syscall: MockSyscall,
    inputs: Result<serde_json::Value, Failure>,
    outcome: Result<SyscallResult, Failure>,
    result: SyscallResult,
    outputs: Result<serde_json::Value, Failure>,
    r: Result<Execution, Failure>,
)
    requires
        is_execution_of(syscall, inputs, outcome, result, outputs, r),
    ensures
        r is Ok,
        settles_to(syscall.outcome, r->Ok_0.result),
        syscall.outcome matches Ok(given) ==> r->Ok_0.result == given,
        r->Ok_0.inputs_hash@ == document_hash_text(json_model(syscall.inputs)),
        r->Ok_0.outputs_hash@ == document_hash_text(output_document(r->Ok_0.result)),
        tells_of(r->Ok_0.metadata, r->Ok_0.result),
        r->Ok_0.metadata.duration_ms == r->Ok_0.duration_ms,
        r->Ok_0.metadata.inputs_hash@ == r->Ok_0.inputs_hash@,
        r->Ok_0.metadata.outputs_hash@ == r->Ok_0.outputs_hash@,
{
}

} // verus!
