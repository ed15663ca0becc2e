//! Runs impure operations and records what they did.

use vstd::prelude::*;

use crate::clock::{millis_between, now, whole_millis_between, Instant};
use crate::failure::Failure;
use crate::json::json_model;
use crate::syscall_types::{
    document_hash_text, hashes_to, tells_of, Syscall, SyscallMetadata, SyscallResult,
};
use crate::text::join2;

verus! {

/// What one run of an operation came to: the result that the caller gets,
/// and what there is to log of the run.
#[derive(Debug, Clone, PartialEq)]
pub struct Execution {
    /// What the operation gave, an error payload where it failed.
    pub result: SyscallResult,
    /// The record that the operation made of the run.
    pub metadata: SyscallMetadata,
    /// The digest of the operation's inputs, taken before the run.
    pub inputs_hash: String,
    /// The digest of the operation's outputs, taken after the run.
    pub outputs_hash: String,
    /// How long the run took, in milliseconds.
    pub duration_ms: u64,
}

/// Whether `result` is what the outcome of a run is turned into: a result
/// stays as it is, and a failure becomes an error payload that says so.
pub open spec fn settles_to(outcome: Result<SyscallResult, Failure>, result: SyscallResult) -> bool {
    match outcome {
        Ok(given) => result == given,
        Err(failure) => result matches SyscallResult::Error(message) && message@
            == "Syscall execution failed: "@ + failure.message@,
    }
}

/// The milliseconds from `start` to `end` as an unsigned number of 64 bits;
/// a negative count wraps around.
pub open spec fn wrapped_millis(start: Instant, end: Instant) -> int {
    let millis = whole_millis_between(start, end);
    if millis >= 0 {
        millis
    } else {
        millis + 0x1_0000_0000_0000_0000
    }
}

/// Whether `run` is the run that is returned where both snapshots were
/// taken: `given` is the snapshot of the inputs, `result` what the operation
/// gave, `produced` the snapshot of the outputs of `result`.
///
/// The run holds that result; the digests of both snapshots, each of 64
/// hexadecimal digits; the milliseconds between two readings of the clock;
/// and the record that the operation made of that result and that duration,
/// which tells of the result what [`tells_of`] asks.
pub open spec fn is_run_with<S: Syscall>(
    syscall: S,
    given: serde_json::Value,
    result: SyscallResult,
    produced: serde_json::Value,
    run: Execution,
) -> bool {
    &&& run.result == result
    &&& run.inputs_hash@ == document_hash_text(json_model(given))
    &&& run.inputs_hash@.len() == 64
    &&& run.outputs_hash@ == document_hash_text(json_model(produced))
    &&& run.outputs_hash@.len() == 64
    &&& exists|start: Instant, end: Instant|
        start.valid() && end.valid() && run.duration_ms == #[trigger] wrapped_millis(start, end)
    &&& syscall.records(result, run.duration_ms, run.metadata)
    &&& tells_of(run.metadata, result)
}

/// Whether `r` is what a run of `syscall` comes to, where `inputs` is what
/// the operation gave for its inputs, `outcome` what running it gave,
/// `result` what that outcome was turned into, and `outputs` what the
/// operation gave for the outputs of `result`.
///
/// A run fails only where a snapshot could not be taken, and then with the
/// failure that came in the snapshot's place. In every other case the run is
/// returned, whether the operation gave a success payload, an error payload
/// or a failure, which [`settles_to`] turns into an error payload.
pub open spec fn is_execution_of<S: Syscall>(
    syscall: S,
    inputs: Result<serde_json::Value, Failure>,
    outcome: Result<SyscallResult, Failure>,
    result: SyscallResult,
    outputs: Result<serde_json::Value, Failure>,
    r: Result<Execution, Failure>,
) -> bool {
    &&& syscall.has_inputs(inputs)
    &&& match inputs {
        Err(failure) => r == Err::<Execution, Failure>(failure),
        Ok(given) => {
            &&& syscall.runs_to(outcome)
            &&& settles_to(outcome, result)
            &&& syscall.has_outputs(result, outputs)
            &&& match outputs {
                Err(failure) => r == Err::<Execution, Failure>(failure),
                Ok(produced) => r matches Ok(run) && is_run_with(
                    syscall,
                    given,
                    result,
                    produced,
                    run,
                ),
            }
        },
    }
}

/// What a run holds, for every operation. Where both snapshots were taken
/// the run is returned, and it holds what the operation gave: a success
/// payload as it is, recorded as a success without a message; an error
/// payload as it is, recorded as no success with the payload's message; and
/// a failure of the operation as the error payload that says
/// `Syscall execution failed:` and the failure's message, recorded in the
/// same way. The digest of the outputs is taken in each of these cases. Where
/// a snapshot was not taken the run fails with what came in its place.
pub proof fn what_a_run_holds<S: Syscall>(
    syscall: S,
    inputs: Result<serde_json::Value, Failure>,
    outcome: Result<SyscallResult, Failure>,
    result: SyscallResult,
    outputs: Result<serde_json::Value, Failure>,
    r: Result<Execution, Failure>,
)
    requires
        is_execution_of(syscall, inputs, outcome, result, outputs, r),
    ensures
        r is Ok <==> (inputs is Ok && outputs is Ok),
        inputs matches Err(failure) ==> r == Err::<Execution, Failure>(failure),
        inputs is Ok ==> (outputs matches Err(failure) ==> r == Err::<Execution, Failure>(
            failure,
        )),
        r matches Ok(run) ==> {
            &&& settles_to(outcome, run.result)
            &&& tells_of(run.metadata, run.result)
            &&& (outcome matches Ok(given) ==> run.result == given)
            &&& (outcome matches Ok(SyscallResult::Success(payload)) ==> run.metadata.successful
                && run.metadata.error_message is None)
            &&& (outcome matches Ok(SyscallResult::Error(message)) ==> !run.metadata.successful
                && (run.metadata.error_message matches Some(told) && told@ == message@))
            &&& (outcome matches Err(failure) ==> !run.metadata.successful && (
            run.metadata.error_message matches Some(told) && told@
                == "Syscall execution failed: "@ + failure.message@))
            &&& (outputs matches Ok(produced) ==> run.outputs_hash@ == document_hash_text(
                json_model(produced),
            ) && run.outputs_hash@.len() == 64)
            &&& (inputs matches Ok(given) ==> run.inputs_hash@ == document_hash_text(
                json_model(given),
            ) && run.inputs_hash@.len() == 64)
        },
{
}

/// Turns the outcome of a run into the result that is hashed, recorded and
/// handed to the caller.
pub fn settle(outcome: Result<SyscallResult, Failure>) -> (result: SyscallResult)
    ensures
        settles_to(outcome, result),
{
    match outcome {
        Ok(given) => given,
        Err(failure) => SyscallResult::Error(
            join2("Syscall execution failed: ", failure.message.as_str()),
        ),
    }
}

/// How long a run from `start` to `end` took, in milliseconds.
pub fn duration_millis(start: &Instant, end: &Instant) -> (duration_ms: u64)
    requires
        start.in_range(),
        end.in_range(),
    ensures
        duration_ms == wrapped_millis(*start, *end),
{
    let millis: i64 = millis_between(start, end);
    if millis >= 0 {
        millis as u64
    } else {
        let below: i64 = -(millis + 1);
        u64::MAX - (below as u64)
    }
}

/// Runs operations: hashes the inputs, performs the operation, hashes and
/// records what it gave.
pub trait SyscallExecutor {
    /// Runs `syscall` once: see [`is_execution_of`].
    ///
    /// A failure of the operation itself is no failure of the run: it comes
    /// back as an error payload. The run fails only where a snapshot of the
    /// inputs or of the outputs could not be taken.
    fn execute_syscall<S: Syscall>(&self, syscall: &S) -> (r: Result<Execution, Failure>)
        ensures
            exists|
                inputs: Result<serde_json::Value, Failure>,
                outcome: Result<SyscallResult, Failure>,
                result: SyscallResult,
                outputs: Result<serde_json::Value, Failure>,
            | #[trigger]
                is_execution_of(*syscall, inputs, outcome, result, outputs, r),
    ;
}

/// The executor that only observes: it hashes, times and records.
#[derive(Debug, Clone, Copy, PartialEq, Eq, Structural)]
pub struct DefaultSyscallExecutor {}

impl DefaultSyscallExecutor {
    /// An executor; it holds no state.
    pub fn new() -> (executor: Self)
        ensures
            executor == (DefaultSyscallExecutor {}),
    {
        DefaultSyscallExecutor {}
    }
}

impl SyscallExecutor for DefaultSyscallExecutor {
    fn execute_syscall<S: Syscall>(&self, syscall: &S) -> (r: Result<Execution, Failure>) {
        let start = now();
        let hashed_inputs = syscall.inputs_hash();
        let ghost inputs = choose|snapshot: Result<serde_json::Value, Failure>|
            syscall.has_inputs(snapshot) && #[trigger] hashes_to(snapshot, hashed_inputs);
        let inputs_hash = match hashed_inputs {
            Ok(hash) => hash,
            Err(failure) => {
                let r = Err(failure);
                proof {
                    let outcome: Result<SyscallResult, Failure> = arbitrary();
                    let result: SyscallResult = arbitrary();
                    let outputs: Result<serde_json::Value, Failure> = arbitrary();
                    assert(is_execution_of(*syscall, inputs, outcome, result, outputs, r));
                }
                return r;
            },
        };
        let outcome = syscall.execute();
        let end = now();
        let duration_ms = duration_millis(&start, &end);
        let result = settle(outcome);
        let hashed_outputs = syscall.outputs_hash(&result);
        let ghost outputs = choose|snapshot: Result<serde_json::Value, Failure>|
            syscall.has_outputs(result, snapshot) && #[trigger] hashes_to(snapshot, hashed_outputs);
        let outputs_hash = match hashed_outputs {
            Ok(hash) => hash,
            Err(failure) => {
                let r = Err(failure);
                proof {
                    assert(is_execution_of(*syscall, inputs, outcome, result, outputs, r));
                }
                return r;
            },
        };
        let metadata = syscall.metadata(&result, duration_ms);
        let run = Execution { result, metadata, inputs_hash, outputs_hash, duration_ms };
        let r = Ok(run);
        proof {
            assert(run.duration_ms == wrapped_millis(start, end));
            assert(is_run_with(*syscall, inputs->Ok_0, result, outputs->Ok_0, run));
            assert(is_execution_of(*syscall, inputs, outcome, result, outputs, r));
        }
        r
    }
}

} // verus!
