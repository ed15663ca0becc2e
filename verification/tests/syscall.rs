use mytool::clock::Instant;
use mytool::failure::{Failure, FailureKind};
use mytool::syscall_executor::{settle, DefaultSyscallExecutor, SyscallExecutor};
use mytool::json::printed_bytes;
use mytool::mock_syscall::MockSyscall;
use mytool::syscall_types::{
    hash_printed, hash_snapshot, Syscall, SyscallCategory, SyscallMetadata, SyscallResult,
};
use serde_json::Value;

fn object(name: &str, value: Value) -> Value {
    let mut fields = serde_json::Map::new();
    fields.insert(name.to_string(), value);
    Value::Object(fields)
}

/// An operation that gives what it was told to give.
struct Canned {
    outcome: Result<SyscallResult, Failure>,
    outputs_fail: bool,
}

impl Syscall for Canned {
    fn name(&self) -> &'static str {
        "Test_Canned"
    }

    fn execute(&self) -> Result<SyscallResult, Failure> {
        self.outcome.clone()
    }

    fn inputs(&self) -> Result<Value, Failure> {
        Ok(object("q", Value::from("rust")))
    }

    fn outputs(&self, result: &SyscallResult) -> Result<Value, Failure> {
        if self.outputs_fail {
            return Err(Failure::new(FailureKind::Encoding, "outputs cannot be taken"));
        }
        match result {
            SyscallResult::Success(payload) => Ok(payload.clone()),
            SyscallResult::Error(message) => Ok(Value::String(message.clone())),
        }
    }

    fn metadata(&self, result: &SyscallResult, duration_ms: u64) -> SyscallMetadata {
        let error_message = match result {
            SyscallResult::Success(_) => None,
            SyscallResult::Error(message) => Some(message.clone()),
        };
        SyscallMetadata {
            id: uuid::Uuid::new_v4(),
            category: SyscallCategory::GitHubApi,
            timestamp: Instant { seconds: 1_700_000_000, nanos: 0 },
            caller_info: None,
            duration_ms,
            successful: error_message.is_none(),
            error_message,
            inputs_hash: self.inputs_hash().unwrap(),
            outputs_hash: self.outputs_hash(result).unwrap(),
            persistence_id: None,
        }
    }
}

const INPUTS_HASH: &str = "5f896bb89986a7348805029ea0329739ce22e6f918c24351ee07ff2a1430c1a1";

#[test]
fn executor_new_holds_no_state() {
    assert_eq!(DefaultSyscallExecutor::new(), DefaultSyscallExecutor::new());
}

#[test]
fn a_success_is_recorded_as_a_success() {
    let payload = object("ok", Value::Bool(true));
    let syscall = Canned { outcome: Ok(SyscallResult::Success(payload.clone())), outputs_fail: false };
    let run = DefaultSyscallExecutor::new().execute_syscall(&syscall).unwrap();
    assert_eq!(run.result, SyscallResult::Success(payload));
    assert!(run.metadata.successful);
    assert_eq!(run.metadata.error_message, None);
    assert_eq!(run.metadata.duration_ms, run.duration_ms);
    assert_eq!(run.inputs_hash, INPUTS_HASH);
    assert_eq!(
        run.outputs_hash,
        "4062edaf750fb8074e7e83e0c9028c94e32468a8b6f1614774328ef045150f93"
    );
    assert!(run.duration_ms < 60_000);
    assert_eq!(run.metadata.clone(), run.metadata);
}

#[test]
fn an_error_payload_is_recorded_and_hashed() {
    let syscall = Canned {
        outcome: Ok(SyscallResult::Error("denied".to_string())),
        outputs_fail: false,
    };
    let run = DefaultSyscallExecutor::new().execute_syscall(&syscall).unwrap();
    assert_eq!(run.result, SyscallResult::Error("denied".to_string()));
    assert!(!run.metadata.successful);
    assert_eq!(run.metadata.error_message, Some("denied".to_string()));
    assert_eq!(run.inputs_hash, INPUTS_HASH);
    assert_eq!(run.outputs_hash, hash_snapshot(Ok(Value::from("denied"))).unwrap());
    assert_eq!(run.outputs_hash.len(), 64);
}

#[test]
fn a_failure_of_the_operation_becomes_an_error_payload() {
    let syscall = Canned {
        outcome: Err(Failure::new(FailureKind::Upstream, "boom")),
        outputs_fail: false,
    };
    let run = DefaultSyscallExecutor::new().execute_syscall(&syscall).unwrap();
    assert_eq!(run.result, SyscallResult::Error("Syscall execution failed: boom".to_string()));
    assert!(!run.metadata.successful);
    assert_eq!(
        run.metadata.error_message,
        Some("Syscall execution failed: boom".to_string())
    );
    assert_eq!(
        run.outputs_hash,
        "8e0e5f44f0c12d0ad527e0d57183e53587f403f4c6d977394e54ac43d9f104ab"
    );
}

#[test]
fn a_failure_of_the_hashing_fails_the_run() {
    let syscall = Canned {
        outcome: Ok(SyscallResult::Success(Value::Null)),
        outputs_fail: true,
    };
    let failure = DefaultSyscallExecutor::new().execute_syscall(&syscall).unwrap_err();
    assert_eq!(failure, Failure::new(FailureKind::Encoding, "outputs cannot be taken"));
}

#[test]
fn settle_keeps_results_and_wraps_failures() {
    assert_eq!(
        settle(Ok(SyscallResult::Success(Value::from(1)))),
        SyscallResult::Success(Value::from(1))
    );
    assert_eq!(
        settle(Ok(SyscallResult::Error("e".to_string()))),
        SyscallResult::Error("e".to_string())
    );
    assert_eq!(
        settle(Err(Failure::new(FailureKind::Upstream, "timed out"))),
        SyscallResult::Error("Syscall execution failed: timed out".to_string())
    );
}

#[test]
fn hash_snapshot_hashes_the_compact_text() {
    assert_eq!(hash_snapshot(Ok(object("q", Value::from("rust")))).unwrap(), INPUTS_HASH);
    assert_eq!(
        hash_snapshot(Ok(object("error", Value::from("denied")))).unwrap(),
        "ad2108b94373d55034905f6b8c47981deba9b28c6913ad98af821166727a3859"
    );
    let failure = Failure::new(FailureKind::Upstream, "no inputs");
    assert_eq!(hash_snapshot(Err(failure.clone())), Err(failure));
}

#[test]
fn hashes_of_the_trait_are_those_of_the_snapshots() {
    let syscall = Canned { outcome: Ok(SyscallResult::Success(Value::Null)), outputs_fail: false };
    assert_eq!(syscall.inputs_hash().unwrap(), INPUTS_HASH);
    assert_eq!(
        syscall.outputs_hash(&SyscallResult::Success(object("ok", Value::Bool(true)))).unwrap(),
        "4062edaf750fb8074e7e83e0c9028c94e32468a8b6f1614774328ef045150f93"
    );
    assert_eq!(syscall.name(), "Test_Canned");
}

#[test]
fn hash_printed_hashes_the_bytes_or_reports_the_encoding() {
    assert_eq!(
        hash_printed(Ok(b"abc".to_vec())).unwrap(),
        "ba7816bf8f01cfea414140de5dae2223b00361a396177a9cb410ff61f20015ad"
    );
    let error = serde_json::from_str::<Value>("[").unwrap_err();
    let message = error.to_string();
    let failure = hash_printed(Err(error)).unwrap_err();
    assert_eq!(failure, Failure { kind: FailureKind::Encoding, message });
}

#[test]
fn printed_bytes_hands_bytes_on_and_reports_errors() {
    assert_eq!(printed_bytes(Ok(vec![1, 2, 3])), Ok(vec![1, 2, 3]));
    let error = serde_json::from_str::<Value>("").unwrap_err();
    let failure = printed_bytes(Err(error)).unwrap_err();
    assert_eq!(failure.kind, FailureKind::Encoding);
    assert_eq!(failure.message, "EOF while parsing a value at line 1 column 0");
}

fn mock(inputs: Value, outcome: Result<SyscallResult, Failure>) -> MockSyscall {
    MockSyscall::new(
        uuid::Uuid::from_u128(7),
        SyscallCategory::Filesystem,
        Instant { seconds: 1_700_000_000, nanos: 0 },
        inputs,
        outcome,
    )
}

const EMPTY_OBJECT_HASH: &str = "44136fa355b3678a1146ad16f7e8649e94fb4fc21fe77e8310c060f61caaff8a";

#[test]
fn hash_of_an_empty_object() {
    let syscall = mock(Value::Object(serde_json::Map::new()), Ok(SyscallResult::Success(Value::Null)));
    assert_eq!(syscall.inputs_hash(), Ok(EMPTY_OBJECT_HASH.to_string()));
    assert_eq!(
        syscall.outputs_hash(&SyscallResult::Success(Value::Object(serde_json::Map::new()))),
        Ok(EMPTY_OBJECT_HASH.to_string())
    );
}

#[test]
fn a_run_of_the_mock_is_returned_for_every_outcome() {
    let executor = DefaultSyscallExecutor::new();
    let inputs = object("q", Value::from("rust"));

    let payload = object("ok", Value::Bool(true));
    let run = executor
        .execute_syscall(&mock(inputs.clone(), Ok(SyscallResult::Success(payload.clone()))))
        .unwrap();
    assert_eq!(run.result, SyscallResult::Success(payload));
    assert!(run.metadata.successful);
    assert_eq!(run.metadata.error_message, None);
    assert_eq!(run.inputs_hash, INPUTS_HASH);
    assert_eq!(
        run.outputs_hash,
        "4062edaf750fb8074e7e83e0c9028c94e32468a8b6f1614774328ef045150f93"
    );
    assert_eq!(run.metadata.inputs_hash, run.inputs_hash);
    assert_eq!(run.metadata.outputs_hash, run.outputs_hash);
    assert_eq!(run.metadata.duration_ms, run.duration_ms);
    assert_eq!(run.metadata.id, uuid::Uuid::from_u128(7));
    assert_eq!(run.metadata.category, SyscallCategory::Filesystem);
    assert_eq!(run.metadata.caller_info, None);
    assert_eq!(run.metadata.persistence_id, None);

    let run = executor
        .execute_syscall(&mock(inputs.clone(), Ok(SyscallResult::Error("denied".to_string()))))
        .unwrap();
    assert_eq!(run.result, SyscallResult::Error("denied".to_string()));
    assert!(!run.metadata.successful);
    assert_eq!(run.metadata.error_message, Some("denied".to_string()));
    assert_eq!(run.outputs_hash, hash_snapshot(Ok(Value::from("denied"))).unwrap());

    let run = executor
        .execute_syscall(&mock(inputs, Err(Failure::new(FailureKind::Upstream, "boom"))))
        .unwrap();
    assert_eq!(run.result, SyscallResult::Error("Syscall execution failed: boom".to_string()));
    assert!(!run.metadata.successful);
    assert_eq!(
        run.metadata.error_message,
        Some("Syscall execution failed: boom".to_string())
    );
    assert_eq!(
        run.outputs_hash,
        "8e0e5f44f0c12d0ad527e0d57183e53587f403f4c6d977394e54ac43d9f104ab"
    );
    assert_eq!(run.outputs_hash.len(), 64);
}

#[test]
fn the_mock_gives_what_it_was_told() {
    let syscall = mock(Value::from(1), Err(Failure::new(FailureKind::Upstream, "boom")));
    assert_eq!(syscall.name(), "Mock_Syscall");
    assert_eq!(syscall.inputs(), Ok(Value::from(1)));
    assert_eq!(syscall.execute(), Err(Failure::new(FailureKind::Upstream, "boom")));
    assert_eq!(syscall.outputs(&SyscallResult::Success(Value::from(2))), Ok(Value::from(2)));
    assert_eq!(syscall.outputs(&SyscallResult::Error("e".to_string())), Ok(Value::from("e")));
    let record = syscall.metadata(&SyscallResult::Error("e".to_string()), 12);
    assert_eq!(record.duration_ms, 12);
    assert_eq!(record.error_message, Some("e".to_string()));
    assert!(!record.successful);
}

#[test]
fn a_run_fails_where_the_inputs_cannot_be_taken() {
    struct NoInputs;
    impl Syscall for NoInputs {
        fn name(&self) -> &'static str {
            "Test_NoInputs"
        }
        fn execute(&self) -> Result<SyscallResult, Failure> {
            panic!("an operation whose inputs cannot be taken is not run")
        }
        fn inputs(&self) -> Result<Value, Failure> {
            Err(Failure::new(FailureKind::Upstream, "no inputs"))
        }
        fn outputs(&self, _: &SyscallResult) -> Result<Value, Failure> {
            Ok(Value::Null)
        }
        fn metadata(&self, _: &SyscallResult, _: u64) -> SyscallMetadata {
            panic!("no record of a run that did not start")
        }
    }
    let failure = DefaultSyscallExecutor::new().execute_syscall(&NoInputs).unwrap_err();
    assert_eq!(failure, Failure::new(FailureKind::Upstream, "no inputs"));
}
