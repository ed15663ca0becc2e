//! The records that describe one run of an impure operation.

use vstd::prelude::*;

use crate::clock::Instant;
use crate::digest::{sha256_hex, sha256_hex_text};
use crate::failure::{fails_with, Failure, FailureKind};
use crate::json::{json_bytes, json_error_message, json_model, printed_bytes, to_vec, Json};

verus! {

/// `uuid::Uuid`, held as it is. The library hands identifiers on and makes
/// none.
#[verifier::external_type_specification]
#[verifier::external_body]
pub struct ExUuid(uuid::Uuid);

/// `Uuid::clone`: an identifier equal to the one cloned.
pub assume_specification[ <uuid::Uuid as Clone>::clone ](id: &uuid::Uuid) -> (copy: uuid::Uuid)
    ensures
        copy == *id,
;

/// The kind of outside interaction that an operation performs.
#[derive(Debug, Clone, Copy, PartialEq, Eq, Structural)]
pub enum SyscallCategory {
    /// A call to the repository-hosting API.
    GitHubApi,
    /// A read or write of the embedded key-value store.
    RocksDB,
    /// Direct access to the file system.
    Filesystem,
    /// An operation on a git repository.
    Git,
    /// An operation of the Nix package manager.
    Nix,
}

/// What is recorded of one run of an operation.
#[derive(Debug, Clone, PartialEq)]
pub struct SyscallMetadata {
    /// Identifies this run.
    pub id: uuid::Uuid,
    /// The kind of interaction.
    pub category: SyscallCategory,
    /// When the operation ran.
    pub timestamp: Instant,
    /// Who asked for the run, where that is known.
    pub caller_info: Option<String>,
    /// How long the run took, in milliseconds.
    pub duration_ms: u64,
    /// Whether the operation gave a success payload.
    pub successful: bool,
    /// What went wrong, where the operation gave an error payload.
    pub error_message: Option<String>,
    /// The digest of the operation's inputs.
    pub inputs_hash: String,
    /// The digest of the operation's outputs.
    pub outputs_hash: String,
    /// Where the record is kept outside, once it is kept anywhere.
    pub persistence_id: Option<String>,
}

/// What an operation gave: a payload, or the message of what went wrong.
/// Both are hashed and recorded alike.
#[derive(Debug, Clone, PartialEq)]
pub enum SyscallResult {
    /// The operation did its work; this is what it produced.
    Success(serde_json::Value),
    /// The operation failed; this is why.
    Error(String),
}

/// The digest text of a document: the SHA-256 digest, in hexadecimal, of
/// the document's compact text.
pub open spec fn document_hash_text(document: Json) -> Seq<char> {
    sha256_hex_text(json_bytes(document))
}

/// Whether `hash` is what hashing the snapshot comes to: the digest text of
/// the snapshot's document, 64 hexadecimal digits, and for a snapshot that
/// could not be taken the failure that came in its place.
pub open spec fn hashes_to(
    snapshot: Result<serde_json::Value, Failure>,
    hash: Result<String, Failure>,
) -> bool {
    match snapshot {
        Ok(value) => {
            &&& hash matches Ok(text) && text@ == document_hash_text(json_model(value))
            &&& hash matches Ok(text) && text@.len() == 64
        },
        Err(failure) => hash == Err::<String, Failure>(failure),
    }
}

/// The digest of printed bytes, or the encoding failure where there are
/// none: the SHA-256 digest of the bytes, as 64 hexadecimal digits.
pub fn hash_printed(printed: Result<Vec<u8>, serde_json::Error>) -> (hash: Result<String, Failure>)
    ensures
        match printed {
            Ok(bytes) => hash matches Ok(text) && text@ == sha256_hex_text(bytes@) && text@.len()
                == 64,
            Err(error) => fails_with(hash, FailureKind::Encoding, json_error_message(error)),
        },
{
    match printed_bytes(printed) {
        Ok(bytes) => Ok(sha256_hex(bytes.as_slice())),
        Err(failure) => Err(failure),
    }
}

/// Hashes a snapshot of an operation's inputs or outputs: the digest of the
/// compact text of the snapshot's document.
///
/// A snapshot that could not be taken is handed back as the failure it is;
/// there is no other failure.
pub fn hash_snapshot(snapshot: Result<serde_json::Value, Failure>) -> (hash: Result<
    String,
    Failure,
>)
    ensures
        hashes_to(snapshot, hash),
{
    match snapshot {
        Ok(value) => hash_printed(to_vec(&value)),
        Err(failure) => Err(failure),
    }
}

/// Whether a record says of a result what every record owes: that the run
/// succeeded exactly where the result is a success payload, with no message
/// then, and with the payload's message where the result is an error payload.
pub open spec fn tells_of(record: SyscallMetadata, result: SyscallResult) -> bool {
    match result {
        SyscallResult::Success(_) => record.successful && record.error_message is None,
        SyscallResult::Error(message) => {
            &&& !record.successful
            &&& record.error_message matches Some(told) && told@ == message@
        },
    }
}

/// An impure operation that can be run, hashed and recorded.
///
/// The four relations say what an implementation promises of its answers. As
/// they stand they promise nothing; an implementation that knows more says so
/// by giving them a body of its own.
pub trait Syscall {
    /// Whether `outcome` is something that running the operation can give.
    open spec fn runs_to(&self, outcome: Result<SyscallResult, Failure>) -> bool {
        true
    }

    /// Whether `snapshot` is something that asking for the inputs can give.
    open spec fn has_inputs(&self, snapshot: Result<serde_json::Value, Failure>) -> bool {
        true
    }

    /// Whether `snapshot` is something that asking for the outputs of
    /// `result` can give.
    open spec fn has_outputs(
        &self,
        result: SyscallResult,
        snapshot: Result<serde_json::Value, Failure>,
    ) -> bool {
        true
    }

    /// Whether `record` is a record that the operation can make of a run that
    /// gave `result` and took `duration_ms` milliseconds.
    open spec fn records(
        &self,
        result: SyscallResult,
        duration_ms: u64,
        record: SyscallMetadata,
    ) -> bool {
        true
    }

    /// The name of this kind of operation; it does not change.
    fn name(&self) -> &'static str;

    /// Performs the operation. What goes wrong inside the operation comes
    /// back as an error payload or as a failure.
    fn execute(&self) -> (outcome: Result<SyscallResult, Failure>)
        ensures
            self.runs_to(outcome),
    ;

    /// The operation's arguments, for hashing and audit.
    fn inputs(&self) -> (snapshot: Result<serde_json::Value, Failure>)
        ensures
            self.has_inputs(snapshot),
    ;

    /// What the operation produced, for hashing and audit.
    fn outputs(&self, result: &SyscallResult) -> (snapshot: Result<serde_json::Value, Failure>)
        ensures
            self.has_outputs(*result, snapshot),
    ;

    /// The record of one run. It says that the run succeeded exactly where
    /// the result is a success payload, and it carries the message of the
    /// payload where the result is an error payload: see [`tells_of`].
    fn metadata(&self, result: &SyscallResult, duration_ms: u64) -> (record: SyscallMetadata)
        ensures
            tells_of(record, *result),
            self.records(*result, duration_ms, record),
    ;

    /// The digest of the inputs: see [`hash_snapshot`].
    fn inputs_hash(&self) -> (hash: Result<String, Failure>)
        ensures
            exists|snapshot: Result<serde_json::Value, Failure>|
                self.has_inputs(snapshot) && #[trigger] hashes_to(snapshot, hash),
    {
        let snapshot = self.inputs();
        hash_snapshot(snapshot)
    }

    /// The digest of the outputs of `result`: see [`hash_snapshot`].
    fn outputs_hash(&self, result: &SyscallResult) -> (hash: Result<String, Failure>)
        ensures
            exists|snapshot: Result<serde_json::Value, Failure>|
                self.has_outputs(*result, snapshot) && #[trigger] hashes_to(snapshot, hash),
    {
        let snapshot = self.outputs(result);
        hash_snapshot(snapshot)
    }
}

} // verus!
