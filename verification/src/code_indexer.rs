//! The index of code files: a record and the file's text for each path.
//!
//! The records live in one namespace of the engine and the texts in another,
//! both under one key, which is made of the repository's full name and the
//! SHA-256 digest of the file's path.

use vstd::prelude::*;
use vstd::slice::slice_to_vec;
use vstd::utf8::{decode_utf8, encode_utf8, valid_utf8};

use crate::clock::{instant_text, now, parse, parsed_instant, to_text, Instant};
use crate::digest::{
    hex_text_holds_digits_only, hex_text_is_injective, sha256, sha256_hex, sha256_hex_text,
};
use crate::failure::{fails_with, Failure, FailureKind, FailureModel};
use crate::json::{
    distinct_names, document_texts, from_slice, json_array, json_bytes, json_members, json_model,
    json_models, json_object, json_parse, json_round_trip, json_string, member_text, member_texts,
    printed_bytes, text_member, texts_member, to_vec, Json,
};
use crate::store::{
    after_put, is_scan, read_of, Contents, OpenReply, Put, PutModel, ReadModel, ReadReply,
    ScanReply, Slot, SlotModel, WriteReply,
};
use crate::text::{from_utf8, join3, texts};

verus! {

/// The namespace of the records.
pub const CODE_METADATA_CF: &'static str = "code_metadata";

/// The namespace of the files' texts.
pub const CODE_CONTENT_CF: &'static str = "code_content";

/// What the index knows of one file.
#[derive(Debug, Clone, PartialEq, Eq)]
pub struct CodeFileMetadata {
    /// The repository's full name: owner, a slash, name.
    pub repo_full_name: String,
    /// The path of the file inside the repository.
    pub file_path: String,
    /// The SHA-256 digest of `file_path`, in hexadecimal.
    pub file_path_hash: String,
    /// When the file was indexed last.
    pub last_indexed_at: Instant,
    /// The keywords that were found in the file, in the order given.
    pub keywords_found: Vec<String>,
}

/// A [`CodeFileMetadata`] as a mathematical value.
pub struct CodeFileRecord {
    pub repo_full_name: Seq<char>,
    pub file_path: Seq<char>,
    pub file_path_hash: Seq<char>,
    pub last_indexed_at: Instant,
    pub keywords_found: Seq<Seq<char>>,
}

impl View for CodeFileMetadata {
    type V = CodeFileRecord;

    open spec fn view(&self) -> CodeFileRecord {
        CodeFileRecord {
            repo_full_name: self.repo_full_name@,
            file_path: self.file_path@,
            file_path_hash: self.file_path_hash@,
            last_indexed_at: self.last_indexed_at,
            keywords_found: texts(self.keywords_found@),
        }
    }
}

/// The string documents of a list of texts.
pub open spec fn string_documents(list: Seq<Seq<char>>) -> Seq<Json> {
    Seq::new(list.len(), |i: int| Json::String(list[i]))
}

/// The members of the object that stands for a record; `stamp` is the text of
/// its point in time.
pub open spec fn record_members(record: CodeFileRecord, stamp: Seq<char>) -> Map<Seq<char>, Json> {
    Map::<Seq<char>, Json>::empty().insert(
        "repo_full_name"@,
        Json::String(record.repo_full_name),
    ).insert("file_path"@, Json::String(record.file_path)).insert(
        "file_path_hash"@,
        Json::String(record.file_path_hash),
    ).insert("last_indexed_at"@, Json::String(stamp)).insert(
        "keywords_found"@,
        Json::Array(string_documents(record.keywords_found)),
    )
}

/// The document that stands for a record: an object with one member for each
/// field. There is none where the point in time cannot be printed.
pub open spec fn record_document(record: CodeFileRecord) -> Option<Json> {
    match instant_text(
        record.last_indexed_at.seconds as int,
        record.last_indexed_at.nanos as int,
    ) {
        Some(stamp) => Some(Json::Object(record_members(record, stamp))),
        None => None,
    }
}

/// The record that a document stands for: the document is an object, its
/// five members are there with the right shapes, and the point in time can
/// be read. Other members are passed over.
pub open spec fn document_record(document: Json) -> Option<CodeFileRecord> {
    match (
        member_text(document, "repo_full_name"@),
        member_text(document, "file_path"@),
        member_text(document, "file_path_hash"@),
        member_text(document, "last_indexed_at"@),
        member_texts(document, "keywords_found"@),
    ) {
        (Some(repo_full_name), Some(file_path), Some(file_path_hash), Some(stamp), Some(keywords_found)) => {
            match parsed_instant(stamp) {
                Some((seconds, nanos)) => Some(
                    CodeFileRecord {
                        repo_full_name,
                        file_path,
                        file_path_hash,
                        last_indexed_at: Instant { seconds: seconds as i64, nanos: nanos as u32 },
                        keywords_found,
                    },
                ),
                None => None,
            }
        },
        _ => None,
    }
}

/// The record that stored bytes hold, if they hold one.
pub open spec fn stored_record(bytes: Seq<u8>) -> Option<CodeFileRecord> {
    match json_parse(bytes) {
        Some(document) => document_record(document),
        None => None,
    }
}

/// The text that stored bytes hold, if they are UTF-8.
pub open spec fn stored_text(bytes: Seq<u8>) -> Option<Seq<char>> {
    if valid_utf8(bytes) {
        Some(decode_utf8(bytes))
    } else {
        None
    }
}

/// The digest of a file's path as it stands in keys and records.
pub open spec fn file_path_hash_text(file_path: Seq<char>) -> Seq<char> {
    sha256_hex_text(encode_utf8(file_path))
}

/// The full name of a repository.
pub open spec fn repo_full_name_text(owner: Seq<char>, repo: Seq<char>) -> Seq<char> {
    owner + "/"@ + repo
}

/// The key of a file in both namespaces.
pub open spec fn record_key_text(owner: Seq<char>, repo: Seq<char>, file_path: Seq<char>) -> Seq<
    char,
> {
    repo_full_name_text(owner, repo) + ":"@ + file_path_hash_text(file_path)
}

/// The record that indexing makes for a file.
pub open spec fn indexed_record(
    owner: Seq<char>,
    repo: Seq<char>,
    file_path: Seq<char>,
    keywords: Seq<Seq<char>>,
    at: Instant,
) -> CodeFileRecord {
    CodeFileRecord {
        repo_full_name: repo_full_name_text(owner, repo),
        file_path,
        file_path_hash: file_path_hash_text(file_path),
        last_indexed_at: at,
        keywords_found: keywords,
    }
}

/// The slot of a file's record.
pub open spec fn metadata_slot_of(owner: Seq<char>, repo: Seq<char>, file_path: Seq<char>) -> SlotModel {
    (CODE_METADATA_CF@, record_key_text(owner, repo, file_path))
}

/// The slot of a file's text.
pub open spec fn content_slot_of(owner: Seq<char>, repo: Seq<char>, file_path: Seq<char>) -> SlotModel {
    (CODE_CONTENT_CF@, record_key_text(owner, repo, file_path))
}

/// What a read of a record's slot comes to.
pub open spec fn metadata_read(found: ReadModel) -> Result<Option<CodeFileRecord>, FailureModel> {
    match found {
        ReadModel::Found(bytes) => match stored_record(bytes) {
            Some(record) => Ok(Some(record)),
            None => Err(
                FailureModel {
                    kind: FailureKind::Decoding,
                    message: "Failed to deserialize code file metadata"@,
                },
            ),
        },
        ReadModel::Missing => Ok(None),
        ReadModel::NoNamespace => Err(
            FailureModel {
                kind: FailureKind::StorageUnavailable,
                message: "Failed to get metadata column family handle"@,
            },
        ),
        ReadModel::Failed(message) => Err(
            FailureModel { kind: FailureKind::StorageUnavailable, message },
        ),
    }
}

/// What a read of a text's slot comes to.
pub open spec fn content_read(found: ReadModel) -> Result<Option<Seq<char>>, FailureModel> {
    match found {
        ReadModel::Found(bytes) => match stored_text(bytes) {
            Some(text) => Ok(Some(text)),
            None => Err(
                FailureModel {
                    kind: FailureKind::Decoding,
                    message: "Failed to decode code file content from UTF-8"@,
                },
            ),
        },
        ReadModel::Missing => Ok(None),
        ReadModel::NoNamespace => Err(
            FailureModel {
                kind: FailureKind::StorageUnavailable,
                message: "Failed to get content column family handle"@,
            },
        ),
        ReadModel::Failed(message) => Err(
            FailureModel { kind: FailureKind::StorageUnavailable, message },
        ),
    }
}

/// The records of a list of metadata, in order.
pub open spec fn records(list: Seq<CodeFileMetadata>) -> Seq<CodeFileRecord> {
    Seq::new(list.len(), |i: int| list[i]@)
}

/// The byte strings of a list of vectors, in order.
pub open spec fn byte_strings(list: Seq<Vec<u8>>) -> Seq<Seq<u8>> {
    Seq::new(list.len(), |i: int| list[i]@)
}

/// Reads a record from the bytes that were stored for it.
pub fn decode_record(bytes: &[u8]) -> (metadata: Option<CodeFileMetadata>)
    ensures
        metadata is Some <==> stored_record(bytes@) is Some,
        metadata matches Some(m) ==> stored_record(bytes@) == Some(m@),
{
    let document = match from_slice(bytes) {
        Ok(document) => document,
        Err(_) => {
            return None;
        },
    };
    let repo_full_name = text_member(&document, "repo_full_name");
    let file_path = text_member(&document, "file_path");
    let file_path_hash = text_member(&document, "file_path_hash");
    let stamp = text_member(&document, "last_indexed_at");
    let keywords_found = texts_member(&document, "keywords_found");
    match (repo_full_name, file_path, file_path_hash, stamp, keywords_found) {
        (
            Some(repo_full_name),
            Some(file_path),
            Some(file_path_hash),
            Some(stamp),
            Some(keywords_found),
        ) => {
            match parse(stamp.as_str()) {
                Some(last_indexed_at) => Some(
                    CodeFileMetadata {
                        repo_full_name,
                        file_path,
                        file_path_hash,
                        last_indexed_at,
                        keywords_found,
                    },
                ),
                None => None,
            }
        },
        _ => None,
    }
}

/// The names of the five members of a record's document differ from one
/// another.
pub proof fn member_names_differ()
    ensures
        "repo_full_name"@ != "file_path"@,
        "repo_full_name"@ != "file_path_hash"@,
        "repo_full_name"@ != "last_indexed_at"@,
        "repo_full_name"@ != "keywords_found"@,
        "file_path"@ != "file_path_hash"@,
        "file_path"@ != "last_indexed_at"@,
        "file_path"@ != "keywords_found"@,
        "file_path_hash"@ != "last_indexed_at"@,
        "file_path_hash"@ != "keywords_found"@,
        "last_indexed_at"@ != "keywords_found"@,
{
    reveal_strlit("repo_full_name");
    reveal_strlit("file_path");
    reveal_strlit("file_path_hash");
    reveal_strlit("last_indexed_at");
    reveal_strlit("keywords_found");
    assert("repo_full_name"@.len() == 14);
    assert("file_path"@.len() == 9);
    assert("file_path_hash"@.len() == 14);
    assert("last_indexed_at"@.len() == 15);
    assert("keywords_found"@.len() == 14);
    assert("repo_full_name"@[0] == 'r');
    assert("file_path_hash"@[0] == 'f');
    assert("keywords_found"@[0] == 'k');
}

/// The JSON value that stands for a record; none where the record's point
/// in time cannot be printed.
pub fn record_value(metadata: &CodeFileMetadata) -> (value: Option<serde_json::Value>)
    ensures
        value is Some <==> record_document(metadata@) is Some,
        value matches Some(v) ==> record_document(metadata@) == Some(json_model(v)),
{
    let stamp = match to_text(&metadata.last_indexed_at) {
        Some(stamp) => stamp,
        None => {
            return None;
        },
    };
    let mut keywords: Vec<serde_json::Value> = Vec::new();
    let mut i: usize = 0;
    while i < metadata.keywords_found.len()
        invariant
            i <= metadata.keywords_found.len(),
            keywords@.len() == i,
            forall|k: int|
                0 <= k < i ==> #[trigger] json_model(keywords@[k]) == Json::String(
                    metadata.keywords_found@[k]@,
                ),
        decreases metadata.keywords_found.len() - i,
    {
        keywords.push(json_string(metadata.keywords_found[i].as_str()));
        i = i + 1;
    }
    assert(json_models(keywords@) =~= string_documents(metadata@.keywords_found));
    let mut fields: Vec<(String, serde_json::Value)> = Vec::new();
    fields.push((String::from_str("repo_full_name"), json_string(metadata.repo_full_name.as_str())));
    fields.push((String::from_str("file_path"), json_string(metadata.file_path.as_str())));
    fields.push((String::from_str("file_path_hash"), json_string(metadata.file_path_hash.as_str())));
    fields.push((String::from_str("last_indexed_at"), json_string(stamp.as_str())));
    fields.push((String::from_str("keywords_found"), json_array(keywords)));
    proof {
        let all = fields@;
        let four = all.drop_last();
        let three = four.drop_last();
        let two = three.drop_last();
        let one = two.drop_last();
        reveal_with_fuel(json_members, 6);
        assert(json_members(all) =~= record_members(metadata@, stamp@));
        member_names_differ();
        assert(distinct_names(all));
    }
    Some(json_object(fields))
}

/// What writing a record comes to: the compact text of the record's
/// document, and the encoding failure `timestamp out of range` for a record
/// whose point in time cannot be printed.
pub open spec fn encoded_record(record: CodeFileRecord) -> Result<Seq<u8>, FailureModel> {
    match record_document(record) {
        Some(document) => Ok(json_bytes(document)),
        None => Err(
            FailureModel { kind: FailureKind::Encoding, message: "timestamp out of range"@ },
        ),
    }
}

/// Writes a record as the bytes to store for it: see [`encoded_record`].
pub fn encode_record(metadata: &CodeFileMetadata) -> (r: Result<Vec<u8>, Failure>)
    ensures
        match encoded_record(metadata@) {
            Ok(expected) => r matches Ok(bytes) && bytes@ == expected,
            Err(expected) => r matches Err(failure) && failure@ == expected,
        },
{
    let document = match record_value(metadata) {
        Some(document) => document,
        None => {
            return Err(Failure::new(FailureKind::Encoding, "timestamp out of range"));
        },
    };
    printed_bytes(to_vec(&document))
}

/// What indexing a file comes to: the record, and the two writes that put
/// the file into the engine. The record's write goes first.
#[derive(Debug, Clone, PartialEq, Eq)]
pub struct IndexedFile {
    pub metadata: CodeFileMetadata,
    pub metadata_put: Put,
    pub content_put: Put,
}

/// Whether `indexed` is what indexing a file comes to: the file's record,
/// the write of the record's document into the record's slot, and the write
/// of the text as UTF-8 into the text's slot.
pub open spec fn is_indexed_as(
    indexed: IndexedFile,
    owner: Seq<char>,
    repo: Seq<char>,
    file_path: Seq<char>,
    file_content: Seq<char>,
    keywords: Seq<Seq<char>>,
    at: Instant,
    document: Json,
) -> bool {
    &&& indexed.metadata@ == indexed_record(owner, repo, file_path, keywords, at)
    &&& indexed.metadata_put@ == (PutModel {
        slot: metadata_slot_of(owner, repo, file_path),
        value: json_bytes(document),
    })
    &&& indexed.content_put@ == (PutModel {
        slot: content_slot_of(owner, repo, file_path),
        value: encode_utf8(file_content),
    })
}

impl IndexedFile {
    /// The write of the text, once the engine has answered to the write of
    /// the record: the text is written only after the record was, so there is
    /// a write of the text, and with it the record, where the record's write
    /// was done, and where it was not the indexing fails as
    /// [`CodeIndexer::metadata_written`] says and nothing more is written.
    pub fn content_write_after(self, reply: WriteReply) -> (r: Result<
        (Put, CodeFileMetadata),
        Failure,
    >)
        ensures
            reply is Done ==> r == Ok::<(Put, CodeFileMetadata), Failure>(
                (self.content_put, self.metadata),
            ),
            reply is NoNamespace ==> fails_with(
                r,
                FailureKind::StorageUnavailable,
                "Failed to get metadata column family handle"@,
            ),
            reply is Failed ==> fails_with(
                r,
                FailureKind::StorageUnavailable,
                "Failed to put code file metadata into RocksDB"@,
            ),
    {
        match CodeIndexer::metadata_written(reply) {
            Ok(_) => Ok((self.content_put, self.metadata)),
            Err(failure) => Err(failure),
        }
    }
}

/// The index of code files, as far as it is decided here: which slots a file
/// has, what is written into them, and what their contents mean.
#[derive(Debug, Clone, Copy, PartialEq, Eq, Structural)]
pub struct CodeIndexer {}

impl CodeIndexer {
    /// The index over an engine that was asked to open with the namespaces
    /// of [`CodeIndexer::namespaces`]: there is one where the engine opened,
    /// and a storage failure where it did not.
    pub fn new(opened: OpenReply) -> (r: Result<CodeIndexer, Failure>)
        ensures
            opened is Opened ==> r is Ok,
            opened is Failed ==> fails_with(
                r,
                FailureKind::StorageUnavailable,
                "Failed to open RocksDB for CodeIndexer"@,
            ),
    {
        match opened {
            OpenReply::Opened => Ok(CodeIndexer {}),
            OpenReply::Failed(_) => Err(
                Failure::new(
                    FailureKind::StorageUnavailable,
                    "Failed to open RocksDB for CodeIndexer",
                ),
            ),
        }
    }

    /// The namespaces that the engine must hold for the index: that of the
    /// records, then that of the texts.
    pub fn namespaces() -> (names: Vec<String>)
        ensures
            texts(names@) == seq![CODE_METADATA_CF@, CODE_CONTENT_CF@],
    {
        let mut names: Vec<String> = Vec::new();
        names.push(String::from_str(CODE_METADATA_CF));
        names.push(String::from_str(CODE_CONTENT_CF));
        names
    }

    /// The SHA-256 digest of a file's path, as 64 hexadecimal digits.
    pub fn generate_file_path_hash(file_path: &str) -> (hash: String)
        ensures
            hash@ == file_path_hash_text(file_path@),
            hash@.len() == 64,
    {
        sha256_hex(file_path.as_bytes())
    }

    /// The key of a file: `<owner>/<repo>:<digest of the path>`.
    pub fn record_key(owner: &str, repo: &str, file_path: &str) -> (key: String)
        ensures
            key@ == record_key_text(owner@, repo@, file_path@),
    {
        let repo_full_name = join3(owner, "/", repo);
        let hash = Self::generate_file_path_hash(file_path);
        join3(repo_full_name.as_str(), ":", hash.as_str())
    }

    /// The slot that holds a file's record.
    pub fn metadata_slot(owner: &str, repo: &str, file_path: &str) -> (slot: Slot)
        ensures
            slot@ == metadata_slot_of(owner@, repo@, file_path@),
    {
        let key = Self::record_key(owner, repo, file_path);
        Slot::new(CODE_METADATA_CF, key.as_str())
    }

    /// The slot that holds a file's text.
    pub fn content_slot(owner: &str, repo: &str, file_path: &str) -> (slot: Slot)
        ensures
            slot@ == content_slot_of(owner@, repo@, file_path@),
    {
        let key = Self::record_key(owner, repo, file_path);
        Slot::new(CODE_CONTENT_CF, key.as_str())
    }

    /// Indexes a file as of the point in time `last_indexed_at`: makes its
    /// record and the two writes, the record under the file's key in the
    /// namespace of the records, the text as UTF-8 under the same key in the
    /// namespace of the texts.
    ///
    /// It fails only where the point in time cannot be printed, and then with
    /// the encoding failure `timestamp out of range`.
    pub fn index_code_file_at(
        &self,
        owner: &str,
        repo: &str,
        file_path: &str,
        file_content: &str,
        keywords: Vec<String>,
        last_indexed_at: Instant,
    ) -> (r: Result<IndexedFile, Failure>)
        ensures
            match record_document(
                indexed_record(owner@, repo@, file_path@, texts(keywords@), last_indexed_at),
            ) {
                Some(document) => r matches Ok(indexed) && is_indexed_as(
                    indexed,
                    owner@,
                    repo@,
                    file_path@,
                    file_content@,
                    texts(keywords@),
                    last_indexed_at,
                    document,
                ),
                None => fails_with(r, FailureKind::Encoding, "timestamp out of range"@),
            },
    {
        let repo_full_name = join3(owner, "/", repo);
        let file_path_hash = Self::generate_file_path_hash(file_path);
        let key = join3(repo_full_name.as_str(), ":", file_path_hash.as_str());
        let metadata = CodeFileMetadata {
            repo_full_name,
            file_path: String::from_str(file_path),
            file_path_hash,
            last_indexed_at,
            keywords_found: keywords,
        };
        let encoded = encode_record(&metadata)?;
        let metadata_put = Put { slot: Slot::new(CODE_METADATA_CF, key.as_str()), value: encoded };
        let content_put = Put {
            slot: Slot::new(CODE_CONTENT_CF, key.as_str()),
            value: slice_to_vec(file_content.as_bytes()),
        };
        Ok(IndexedFile { metadata, metadata_put, content_put })
    }

    /// Indexes a file as of now: see [`CodeIndexer::index_code_file_at`],
    /// which it calls with the current point in time. The current point in
    /// time can be printed, so this does not fail.
    pub fn index_code_file(
        &self,
        owner: &str,
        repo: &str,
        file_path: &str,
        file_content: &str,
        keywords: Vec<String>,
    ) -> (r: Result<IndexedFile, Failure>)
        ensures
            r matches Ok(indexed) && indexed.metadata.last_indexed_at.valid() && (record_document(
                indexed_record(
                    owner@,
                    repo@,
                    file_path@,
                    texts(keywords@),
                    indexed.metadata.last_indexed_at,
                ),
            ) matches Some(document) && is_indexed_as(
                indexed,
                owner@,
                repo@,
                file_path@,
                file_content@,
                texts(keywords@),
                indexed.metadata.last_indexed_at,
                document,
            )),
    {
        let last_indexed_at = now();
        self.index_code_file_at(owner, repo, file_path, file_content, keywords, last_indexed_at)
    }

    /// What the engine's answer to the record's write means.
    pub fn metadata_written(reply: WriteReply) -> (r: Result<(), Failure>)
        ensures
            reply is Done ==> r is Ok,
            reply is NoNamespace ==> fails_with(r, FailureKind::StorageUnavailable, "Failed to get metadata column family handle"@),
            reply is Failed ==> fails_with(r, FailureKind::StorageUnavailable, "Failed to put code file metadata into RocksDB"@),
    {
        match reply {
            WriteReply::Done => Ok(()),
            WriteReply::NoNamespace => Err(
                Failure::new(
                    FailureKind::StorageUnavailable,
                    "Failed to get metadata column family handle",
                ),
            ),
            WriteReply::Failed(_) => Err(
                Failure::new(
                    FailureKind::StorageUnavailable,
                    "Failed to put code file metadata into RocksDB",
                ),
            ),
        }
    }

    /// What the engine's answer to the text's write means.
    pub fn content_written(reply: WriteReply) -> (r: Result<(), Failure>)
        ensures
            reply is Done ==> r is Ok,
            reply is NoNamespace ==> fails_with(r, FailureKind::StorageUnavailable, "Failed to get content column family handle"@),
            reply is Failed ==> fails_with(r, FailureKind::StorageUnavailable, "Failed to put code file content into RocksDB"@),
    {
        match reply {
            WriteReply::Done => Ok(()),
            WriteReply::NoNamespace => Err(
                Failure::new(
                    FailureKind::StorageUnavailable,
                    "Failed to get content column family handle",
                ),
            ),
            WriteReply::Failed(_) => Err(
                Failure::new(
                    FailureKind::StorageUnavailable,
                    "Failed to put code file content into RocksDB",
                ),
            ),
        }
    }

    /// What indexing a file comes to, once the engine has answered to the
    /// write of the text, the second of the two: the record where that write
    /// was done, and where it was not the failure that
    /// [`CodeIndexer::content_written`] says.
    pub fn indexed_after(metadata: CodeFileMetadata, reply: WriteReply) -> (r: Result<
        CodeFileMetadata,
        Failure,
    >)
        ensures
            reply is Done ==> r == Ok::<CodeFileMetadata, Failure>(metadata),
            reply is NoNamespace ==> fails_with(
                r,
                FailureKind::StorageUnavailable,
                "Failed to get content column family handle"@,
            ),
            reply is Failed ==> fails_with(
                r,
                FailureKind::StorageUnavailable,
                "Failed to put code file content into RocksDB"@,
            ),
    {
        match Self::content_written(reply) {
            Ok(_) => Ok(metadata),
            Err(failure) => Err(failure),
        }
    }

    /// The record of a file, from the engine's answer to a read of the
    /// record's slot: the record that the bytes hold, nothing where the slot is
    /// empty, a decoding failure where the bytes hold no record, and a storage
    /// failure where the engine gave none of these.
    pub fn get_code_file_metadata(&self, found: ReadReply) -> (r: Result<
        Option<CodeFileMetadata>,
        Failure,
    >)
        ensures
            match metadata_read(found@) {
                Ok(Some(record)) => r matches Ok(Some(metadata)) && metadata@ == record,
                Ok(None) => r matches Ok(None),
                Err(expected) => r matches Err(failure) && failure@ == expected,
            },
    {
        match found {
            ReadReply::Found(bytes) => match decode_record(bytes.as_slice()) {
                Some(metadata) => Ok(Some(metadata)),
                None => Err(
                    Failure::new(FailureKind::Decoding, "Failed to deserialize code file metadata"),
                ),
            },
            ReadReply::Missing => Ok(None),
            ReadReply::NoNamespace => Err(
                Failure::new(
                    FailureKind::StorageUnavailable,
                    "Failed to get metadata column family handle",
                ),
            ),
            ReadReply::Failed(message) => Err(
                Failure { kind: FailureKind::StorageUnavailable, message },
            ),
        }
    }

    /// The text of a file, from the engine's answer to a read of the text's
    /// slot: the text that the bytes encode, nothing where the slot is empty, a
    /// decoding failure where the bytes are not UTF-8, and a storage failure
    /// where the engine gave none of these.
    pub fn get_code_file_content(&self, found: ReadReply) -> (r: Result<Option<String>, Failure>)
        ensures
            match content_read(found@) {
                Ok(Some(text)) => r matches Ok(Some(content)) && content@ == text,
                Ok(None) => r matches Ok(None),
                Err(expected) => r matches Err(failure) && failure@ == expected,
            },
    {
        match found {
            ReadReply::Found(bytes) => match from_utf8(bytes) {
                Some(content) => Ok(Some(content)),
                None => Err(
                    Failure::new(
                        FailureKind::Decoding,
                        "Failed to decode code file content from UTF-8",
                    ),
                ),
            },
            ReadReply::Missing => Ok(None),
            ReadReply::NoNamespace => Err(
                Failure::new(
                    FailureKind::StorageUnavailable,
                    "Failed to get content column family handle",
                ),
            ),
            ReadReply::Failed(message) => Err(
                Failure { kind: FailureKind::StorageUnavailable, message },
            ),
        }
    }

    /// Every record of the index, from the engine's answer to a scan of the
    /// namespace of the records: one record for each value, in the engine's
    /// order. It fails with a decoding failure where a value holds no record,
    /// and with a storage failure where the engine gave no values.
    pub fn list_indexed_code_metadata(&self, scanned: ScanReply) -> (r: Result<
        Vec<CodeFileMetadata>,
        Failure,
    >)
        ensures
            scanned matches ScanReply::Values(values) ==> {
                if forall|i: int|
                    0 <= i < values@.len() ==> stored_record(#[trigger] values@[i]@) is Some {
                    &&& r matches Ok(list)
                    &&& list@.len() == values@.len()
                    &&& forall|i: int|
                        0 <= i < values@.len() ==> stored_record(values@[i]@) == Some(
                            #[trigger] list@[i]@,
                        )
                } else {
                    fails_with(r, FailureKind::Decoding, "Failed to deserialize indexed code file metadata"@)
                }
            },
            scanned is NoNamespace ==> fails_with(r, FailureKind::StorageUnavailable, "Failed to get metadata column family handle"@),
            scanned matches ScanReply::Failed(message) ==> fails_with(r, FailureKind::StorageUnavailable, message@),
    {
        let values = match scanned {
            ScanReply::Values(values) => values,
            ScanReply::NoNamespace => {
                return Err(
                    Failure::new(
                        FailureKind::StorageUnavailable,
                        "Failed to get metadata column family handle",
                    ),
                );
            },
            ScanReply::Failed(message) => {
                return Err(Failure { kind: FailureKind::StorageUnavailable, message });
            },
        };
        let mut list: Vec<CodeFileMetadata> = Vec::new();
        let mut i: usize = 0;
        while i < values.len()
            invariant
                scanned == ScanReply::Values(values),
                i <= values.len(),
                list@.len() == i,
                forall|k: int|
                    0 <= k < i ==> stored_record(values@[k]@) == Some(#[trigger] list@[k]@),
            decreases values.len() - i,
        {
            match decode_record(values[i].as_slice()) {
                Some(metadata) => {
                    list.push(metadata);
                },
                None => {
                    return Err(
                        Failure::new(
                            FailureKind::Decoding,
                            "Failed to deserialize indexed code file metadata",
                        ),
                    );
                },
            }
            i = i + 1;
        }
        assert forall|k: int| 0 <= k < values@.len() implies stored_record(
            #[trigger] values@[k]@,
        ) is Some by {
            assert(stored_record(values@[k]@) == Some(list@[k]@));
        }
        Ok(list)
    }
}

/// What the index holds: for each key of the namespace of the records, the
/// record that the bytes under it hold, if they hold one.
pub open spec fn indexed_records(contents: Contents) -> Map<Seq<char>, Option<CodeFileRecord>> {
    Map::new(
        |key: Seq<char>| contents.dom().contains((CODE_METADATA_CF@, key)),
        |key: Seq<char>| stored_record(contents[(CODE_METADATA_CF@, key)]),
    )
}

/// The contents of an engine after it has performed the two writes of an
/// indexed file, the record's first.
pub open spec fn after_indexing(
    contents: Contents,
    owner: Seq<char>,
    repo: Seq<char>,
    file_path: Seq<char>,
    document: Json,
    file_content: Seq<char>,
) -> Contents {
    after_put(
        after_put(
            contents,
            PutModel {
                slot: metadata_slot_of(owner, repo, file_path),
                value: json_bytes(document),
            },
        ),
        PutModel {
            slot: content_slot_of(owner, repo, file_path),
            value: encode_utf8(file_content),
        },
    )
}

/// A record is read back from the document that stands for it, where its
/// point in time is valid.
pub proof fn record_document_reads_back(record: CodeFileRecord)
    requires
        record.last_indexed_at.valid(),
    ensures
        record_document(record) matches Some(document) && document_record(document) == Some(
            record,
        ),
{
    member_names_differ();
    let at = record.last_indexed_at;
    let stamp = instant_text(at.seconds as int, at.nanos as int)->0;
    let members = record_members(record, stamp);
    let document = Json::Object(members);
    assert(member_text(document, "repo_full_name"@) == Some(record.repo_full_name));
    assert(member_text(document, "file_path"@) == Some(record.file_path));
    assert(member_text(document, "file_path_hash"@) == Some(record.file_path_hash));
    assert(member_text(document, "last_indexed_at"@) == Some(stamp));
    let items = string_documents(record.keywords_found);
    assert(members["keywords_found"@] == Json::Array(items));
    assert(document_texts(items) == Some(record.keywords_found)) by {
        assert(forall|i: int| 0 <= i < items.len() ==> #[trigger] items[i] is String);
        assert(Seq::new(items.len(), |i: int| items[i]->String_0) =~= record.keywords_found);
    }
    assert(member_texts(document, "keywords_found"@) == Some(record.keywords_found));
}

/// A file that was indexed is read back as it was given: after the engine has
/// performed the two writes, the text's slot reads as the file's text, and the
/// record's slot reads as the record, with the repository's full name, the
/// path and the keywords that were given. The second holds where the record's
/// document is read back from its printed form as the same document.
pub proof fn indexed_file_is_read_back(
    contents: Contents,
    owner: Seq<char>,
    repo: Seq<char>,
    file_path: Seq<char>,
    file_content: Seq<char>,
    keywords: Seq<Seq<char>>,
    at: Instant,
)
    requires
        at.valid(),
    ensures
        ({
            let record = indexed_record(owner, repo, file_path, keywords, at);
            let document = record_document(record)->0;
            let after = after_indexing(contents, owner, repo, file_path, document, file_content);
            &&& record_document(record) is Some
            &&& content_read(read_of(after, content_slot_of(owner, repo, file_path))) == Ok::<
                Option<Seq<char>>,
                FailureModel,
            >(Some(file_content))
            &&& json_round_trip(document) == Some(document) ==> {
                &&& metadata_read(read_of(after, metadata_slot_of(owner, repo, file_path))) == Ok::<
                    Option<CodeFileRecord>,
                    FailureModel,
                >(Some(record))
                &&& record.repo_full_name == owner + "/"@ + repo
                &&& record.file_path == file_path
                &&& record.keywords_found == keywords
            }
        }),
{
    let record = indexed_record(owner, repo, file_path, keywords, at);
    record_document_reads_back(record);
    reveal_strlit("code_metadata");
    reveal_strlit("code_content");
    assert(CODE_METADATA_CF@[5] == 'm');
    assert(CODE_CONTENT_CF@[5] == 'c');
    assert(CODE_METADATA_CF@ != CODE_CONTENT_CF@);
    vstd::utf8::encode_utf8_valid_utf8(file_content);
    vstd::utf8::encode_utf8_decode_utf8(file_content);
}

/// Indexing a file puts its record under the file's key and leaves the
/// records under all other keys as they were. It holds where the record's
/// document is read back from its printed form as the same document.
pub proof fn indexing_adds_one_record(
    contents: Contents,
    owner: Seq<char>,
    repo: Seq<char>,
    file_path: Seq<char>,
    file_content: Seq<char>,
    keywords: Seq<Seq<char>>,
    at: Instant,
)
    requires
        at.valid(),
        json_round_trip(record_document(indexed_record(owner, repo, file_path, keywords, at))->0)
            == record_document(indexed_record(owner, repo, file_path, keywords, at)),
    ensures
        ({
            let record = indexed_record(owner, repo, file_path, keywords, at);
            let document = record_document(record)->0;
            let after = after_indexing(contents, owner, repo, file_path, document, file_content);
            indexed_records(after) == indexed_records(contents).insert(
                record_key_text(owner, repo, file_path),
                Some(record),
            )
        }),
{
    let record = indexed_record(owner, repo, file_path, keywords, at);
    let document = record_document(record)->0;
    let after = after_indexing(contents, owner, repo, file_path, document, file_content);
    let key = record_key_text(owner, repo, file_path);
    record_document_reads_back(record);
    reveal_strlit("code_metadata");
    reveal_strlit("code_content");
    assert(CODE_METADATA_CF@[5] == 'm');
    assert(CODE_CONTENT_CF@[5] == 'c');
    assert(CODE_METADATA_CF@ != CODE_CONTENT_CF@);
    assert(stored_record(json_bytes(document)) == Some(record));
    assert(indexed_records(after) =~= indexed_records(contents).insert(key, Some(record)));
}

/// A listing is the index, no record left out and none given twice: where
/// `values` is a scan of the namespace of the records and `keys` tells the
/// slot of each value, the listing has one entry for each key of the index,
/// and the entry for a key is the record that the index holds under it.
pub proof fn listing_is_the_index(
    contents: Contents,
    keys: Seq<Seq<char>>,
    values: Seq<Seq<u8>>,
    listing: Seq<CodeFileRecord>,
)
    requires
        is_scan(contents, CODE_METADATA_CF@, keys, values),
        listing.len() == values.len(),
        forall|i: int| 0 <= i < values.len() ==> stored_record(values[i]) == Some(#[trigger] listing[i]),
    ensures
        keys.no_duplicates(),
        keys.to_set() == indexed_records(contents).dom(),
        forall|i: int|
            0 <= i < listing.len() ==> indexed_records(contents)[keys[i]] == Some(
                #[trigger] listing[i],
            ),
{
    assert(keys.to_set() =~= indexed_records(contents).dom()) by {
        assert forall|key: Seq<char>| keys.to_set().contains(key) == indexed_records(
            contents,
        ).dom().contains(key) by {
            assert(keys.to_set().contains(key) == keys.contains(key));
        }
    }
    assert forall|i: int| 0 <= i < listing.len() implies indexed_records(contents)[keys[i]]
        == Some(#[trigger] listing[i]) by {
        assert(keys.contains(keys[i]));
        assert(values[i] == contents[(CODE_METADATA_CF@, keys[i])]);
    }
}

/// What the index holds of the files' texts: for each key of the namespace
/// of the texts, the text that the bytes under it encode, if they encode one.
pub open spec fn indexed_texts(contents: Contents) -> Map<Seq<char>, Option<Seq<char>>> {
    Map::new(
        |key: Seq<char>| contents.dom().contains((CODE_CONTENT_CF@, key)),
        |key: Seq<char>| stored_text(contents[(CODE_CONTENT_CF@, key)]),
    )
}

/// Indexing a file puts its text under the file's key and leaves the texts
/// under all other keys as they were.
pub proof fn indexing_adds_one_text(
    contents: Contents,
    owner: Seq<char>,
    repo: Seq<char>,
    file_path: Seq<char>,
    document: Json,
    file_content: Seq<char>,
)
    ensures
        indexed_texts(after_indexing(contents, owner, repo, file_path, document, file_content))
            == indexed_texts(contents).insert(
            record_key_text(owner, repo, file_path),
            Some(file_content),
        ),
{
    let after = after_indexing(contents, owner, repo, file_path, document, file_content);
    let key = record_key_text(owner, repo, file_path);
    reveal_strlit("code_metadata");
    reveal_strlit("code_content");
    assert(CODE_METADATA_CF@[5] == 'm');
    assert(CODE_CONTENT_CF@[5] == 'c');
    assert(CODE_METADATA_CF@ != CODE_CONTENT_CF@);
    vstd::utf8::encode_utf8_valid_utf8(file_content);
    vstd::utf8::encode_utf8_decode_utf8(file_content);
    assert(indexed_texts(after) =~= indexed_texts(contents).insert(key, Some(file_content)));
}

/// One indexing of a file, as a mathematical value: what was given, and the
/// point in time at which it was done.
pub struct Indexing {
    pub owner: Seq<char>,
    pub repo: Seq<char>,
    pub file_path: Seq<char>,
    pub file_content: Seq<char>,
    pub keywords: Seq<Seq<char>>,
    pub at: Instant,
}

impl Indexing {
    /// The key of the file.
    pub open spec fn key(self) -> Seq<char> {
        record_key_text(self.owner, self.repo, self.file_path)
    }

    /// The record that the indexing makes.
    pub open spec fn record(self) -> CodeFileRecord {
        indexed_record(self.owner, self.repo, self.file_path, self.keywords, self.at)
    }

    /// Whether the record is read back as it was written: its point in time
    /// is valid, and its document is read back from its printed form as the
    /// same document.
    pub open spec fn reads_back(self) -> bool {
        &&& self.at.valid()
        &&& json_round_trip(record_document(self.record())->0) == record_document(self.record())
    }
}

/// The contents of an engine after it has performed the writes of a series of
/// indexings, one indexing after the other.
pub open spec fn after_indexings(contents: Contents, indexings: Seq<Indexing>) -> Contents
    decreases indexings.len(),
{
    if indexings.len() == 0 {
        contents
    } else {
        let last = indexings.last();
        after_indexing(
            after_indexings(contents, indexings.drop_last()),
            last.owner,
            last.repo,
            last.file_path,
            record_document(last.record())->0,
            last.file_content,
        )
    }
}

/// The last indexing of a series that has the given key, if there is one.
pub open spec fn last_indexing_of(indexings: Seq<Indexing>, key: Seq<char>) -> Option<Indexing>
    decreases indexings.len(),
{
    if indexings.len() == 0 {
        None
    } else if indexings.last().key() == key {
        Some(indexings.last())
    } else {
        last_indexing_of(indexings.drop_last(), key)
    }
}

/// The last indexing with a key is an indexing of the series that has the
/// key and is followed by none that has it; there is one exactly where some
/// indexing of the series has the key.
pub proof fn last_indexing_is_the_last(indexings: Seq<Indexing>, key: Seq<char>)
    ensures
        last_indexing_of(indexings, key) is Some <==> exists|i: int|
            0 <= i < indexings.len() && (#[trigger] indexings[i]).key() == key,
        last_indexing_of(indexings, key) matches Some(last) ==> exists|i: int|
            0 <= i < indexings.len() && #[trigger] indexings[i] == last && last.key() == key
                && forall|j: int| i < j < indexings.len() ==> (#[trigger] indexings[j]).key() != key,
    decreases indexings.len(),
{
    if indexings.len() > 0 {
        let rest = indexings.drop_last();
        let n = indexings.len() - 1;
        last_indexing_is_the_last(rest, key);
        if indexings.last().key() == key {
            assert(indexings[n] == indexings.last());
        } else {
            if last_indexing_of(rest, key) is Some {
                let last = last_indexing_of(rest, key)->0;
                let i = choose|i: int|
                    0 <= i < rest.len() && #[trigger] rest[i] == last && last.key() == key
                        && forall|j: int| i < j < rest.len() ==> (#[trigger] rest[j]).key() != key;
                assert(indexings[i] == rest[i]);
                assert forall|j: int| i < j < indexings.len() implies (#[trigger] indexings[j]).key()
                    != key by {
                    if j < n {
                        assert(indexings[j] == rest[j]);
                    }
                }
            }
            if exists|i: int| 0 <= i < indexings.len() && (#[trigger] indexings[i]).key() == key {
                let i = choose|i: int|
                    0 <= i < indexings.len() && (#[trigger] indexings[i]).key() == key;
                assert(i < n);
                assert(rest[i] == indexings[i]);
            }
        }
    }
}

/// After a series of indexings on an index that was empty, the index holds
/// under each key the record and the text of the last indexing that has the
/// key, and nothing under any other key: indexing a file again replaces what
/// the index held of it and adds nothing. It holds where each record is read
/// back as it was written.
pub proof fn index_holds_the_last_indexings(indexings: Seq<Indexing>)
    requires
        forall|i: int| 0 <= i < indexings.len() ==> (#[trigger] indexings[i]).reads_back(),
    ensures
        indexed_records(after_indexings(Map::empty(), indexings)) == Map::new(
            |key: Seq<char>| last_indexing_of(indexings, key) is Some,
            |key: Seq<char>| Some(last_indexing_of(indexings, key)->0.record()),
        ),
        indexed_texts(after_indexings(Map::empty(), indexings)) == Map::new(
            |key: Seq<char>| last_indexing_of(indexings, key) is Some,
            |key: Seq<char>| Some(last_indexing_of(indexings, key)->0.file_content),
        ),
    decreases indexings.len(),
{
    let records = Map::new(
        |key: Seq<char>| last_indexing_of(indexings, key) is Some,
        |key: Seq<char>| Some(last_indexing_of(indexings, key)->0.record()),
    );
    let texts = Map::new(
        |key: Seq<char>| last_indexing_of(indexings, key) is Some,
        |key: Seq<char>| Some(last_indexing_of(indexings, key)->0.file_content),
    );
    if indexings.len() == 0 {
        let empty: Contents = Map::empty();
        assert(indexed_records(empty) =~= records);
        assert(indexed_texts(empty) =~= texts);
    } else {
        let rest = indexings.drop_last();
        let last = indexings.last();
        let before = after_indexings(Map::empty(), rest);
        assert forall|i: int| 0 <= i < rest.len() implies (#[trigger] rest[i]).reads_back() by {
            assert(rest[i] == indexings[i]);
        }
        index_holds_the_last_indexings(rest);
        record_document_reads_back(last.record());
        indexing_adds_one_record(
            before,
            last.owner,
            last.repo,
            last.file_path,
            last.file_content,
            last.keywords,
            last.at,
        );
        indexing_adds_one_text(
            before,
            last.owner,
            last.repo,
            last.file_path,
            record_document(last.record())->0,
            last.file_content,
        );
        assert(indexed_records(after_indexings(Map::empty(), indexings)) =~= records);
        assert(indexed_texts(after_indexings(Map::empty(), indexings)) =~= texts);
    }
}

/// The listing after a series of indexings on an index that was empty: it is
/// read without a failure, it has one record for each key that was indexed,
/// none left out and none twice, and the record for a key is the record of
/// the last indexing that has the key. `values` is a scan of the namespace of
/// the records and `keys` tells the slot of each value. It holds where each
/// record is read back as it was written.
pub proof fn listing_after_indexings(
    indexings: Seq<Indexing>,
    keys: Seq<Seq<char>>,
    values: Seq<Seq<u8>>,
)
    requires
        forall|i: int| 0 <= i < indexings.len() ==> (#[trigger] indexings[i]).reads_back(),
        is_scan(after_indexings(Map::empty(), indexings), CODE_METADATA_CF@, keys, values),
    ensures
        keys.no_duplicates(),
        values.len() == keys.len(),
        forall|i: int|
            0 <= i < indexings.len() ==> keys.contains((#[trigger] indexings[i]).key()),
        forall|k: int|
            0 <= k < keys.len() ==> (last_indexing_of(indexings, #[trigger] keys[k]) matches Some(
                last,
            ) && stored_record(values[k]) == Some(last.record())),
{
    let contents = after_indexings(Map::empty(), indexings);
    index_holds_the_last_indexings(indexings);
    assert forall|i: int| 0 <= i < indexings.len() implies keys.contains(
        (#[trigger] indexings[i]).key(),
    ) by {
        let key = indexings[i].key();
        last_indexing_is_the_last(indexings, key);
        assert(indexed_records(contents).dom().contains(key));
    }
    assert forall|k: int| 0 <= k < keys.len() implies (last_indexing_of(
        indexings,
        #[trigger] keys[k],
    ) matches Some(last) && stored_record(values[k]) == Some(last.record())) by {
        assert(keys.contains(keys[k]));
        assert(indexed_records(contents).dom().contains(keys[k]));
        assert(values[k] == contents[(CODE_METADATA_CF@, keys[k])]);
        assert(indexed_records(contents)[keys[k]] == stored_record(values[k]));
    }
}

/// A file that was indexed and not indexed again is read back as it was
/// given, whatever was indexed before and after it: the record's slot reads
/// as its record, with its repository's full name, path, digest and
/// keywords, and the text's slot reads as its text. It holds where each
/// record of the series is read back as it was written.
pub proof fn indexed_file_stays_readable(indexings: Seq<Indexing>, i: int)
    requires
        0 <= i < indexings.len(),
        forall|j: int| 0 <= j < indexings.len() ==> (#[trigger] indexings[j]).reads_back(),
        forall|j: int| i < j < indexings.len() ==> (#[trigger] indexings[j]).key() != indexings[i].key(),
    ensures
        ({
            let given = indexings[i];
            let contents = after_indexings(Map::empty(), indexings);
            &&& metadata_read(
                read_of(contents, metadata_slot_of(given.owner, given.repo, given.file_path)),
            ) == Ok::<Option<CodeFileRecord>, FailureModel>(Some(given.record()))
            &&& content_read(
                read_of(contents, content_slot_of(given.owner, given.repo, given.file_path)),
            ) == Ok::<Option<Seq<char>>, FailureModel>(Some(given.file_content))
            &&& given.record().repo_full_name == given.owner + "/"@ + given.repo
            &&& given.record().file_path == given.file_path
            &&& given.record().file_path_hash == file_path_hash_text(given.file_path)
            &&& given.record().keywords_found == given.keywords
        }),
{
    let given = indexings[i];
    let key = given.key();
    let contents = after_indexings(Map::empty(), indexings);
    index_holds_the_last_indexings(indexings);
    last_indexing_is_the_last(indexings, key);
    let last = last_indexing_of(indexings, key)->0;
    let at = choose|at: int|
        0 <= at < indexings.len() && #[trigger] indexings[at] == last && last.key() == key
            && forall|j: int| at < j < indexings.len() ==> (#[trigger] indexings[j]).key() != key;
    if at < i {
        assert(indexings[i].key() != key);
    }
    if i < at {
        assert(indexings[at].key() != indexings[i].key());
    }
    assert(last == given);
    assert(indexed_records(contents).dom().contains(key));
    assert(indexed_records(contents)[key] == Some(given.record()));
    assert(indexed_texts(contents).dom().contains(key));
    assert(indexed_texts(contents)[key] == Some(given.file_content));
}

/// The key of a file tells the repository's full name and the digest of the
/// path: two files have one key only where they agree in both.
pub proof fn record_keys_tell_files_apart(
    owner: Seq<char>,
    repo: Seq<char>,
    file_path: Seq<char>,
    other_owner: Seq<char>,
    other_repo: Seq<char>,
    other_path: Seq<char>,
)
    requires
        record_key_text(owner, repo, file_path) == record_key_text(
            other_owner,
            other_repo,
            other_path,
        ),
    ensures
        repo_full_name_text(owner, repo) == repo_full_name_text(other_owner, other_repo),
        file_path_hash_text(file_path) == file_path_hash_text(other_path),
        sha256(encode_utf8(file_path)) == sha256(encode_utf8(other_path)),
{
    reveal_strlit(":");
    let name = repo_full_name_text(owner, repo);
    let other_name = repo_full_name_text(other_owner, other_repo);
    let hash = file_path_hash_text(file_path);
    let other_hash = file_path_hash_text(other_path);
    let key = name + ":"@ + hash;
    let other_key = other_name + ":"@ + other_hash;
    assert(key.len() == name.len() + 1 + hash.len());
    assert(other_key.len() == other_name.len() + 1 + other_hash.len());
    assert(key[name.len() as int] == ':');
    assert(other_key[other_name.len() as int] == ':');
    if hash.len() < other_hash.len() {
        let at = name.len() as int - other_name.len() as int - 1;
        assert(other_key[name.len() as int] == other_hash[at]);
        hex_text_holds_digits_only(sha256(encode_utf8(other_path)), at);
    }
    if other_hash.len() < hash.len() {
        let at = other_name.len() as int - name.len() as int - 1;
        assert(key[other_name.len() as int] == hash[at]);
        hex_text_holds_digits_only(sha256(encode_utf8(file_path)), at);
    }
    assert(name =~= other_name) by {
        assert forall|i: int| 0 <= i < name.len() implies name[i] == other_name[i] by {
            assert(key[i] == name[i]);
            assert(other_key[i] == other_name[i]);
        }
    }
    assert(key.subrange(name.len() as int + 1, key.len() as int) =~= hash);
    assert(other_key.subrange(other_name.len() as int + 1, other_key.len() as int) =~= other_hash);
    hex_text_is_injective(sha256(encode_utf8(file_path)), sha256(encode_utf8(other_path)));
}

/// The digest text of a path depends on the path alone, and two paths have
/// the same digest text only where SHA-256 gives their UTF-8 bytes the same
/// digest.
pub proof fn file_path_hash_is_stable(first: Seq<char>, second: Seq<char>)
    ensures
        first == second ==> file_path_hash_text(first) == file_path_hash_text(second),
        file_path_hash_text(first) == file_path_hash_text(second) <==> sha256(encode_utf8(first))
            == sha256(encode_utf8(second)),
{
    if file_path_hash_text(first) == file_path_hash_text(second) {
        hex_text_is_injective(sha256(encode_utf8(first)), sha256(encode_utf8(second)));
    }
}

} // verus!
