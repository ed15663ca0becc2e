//! The key-value store of the cache: values under string keys, as JSON.
//!
//! A value is a JSON document. It is stored as its compact text in the
//! default namespace of the engine, and writing under a key that is taken
//! replaces what was there.

use vstd::prelude::*;

use crate::failure::{fails_with, Failure, FailureKind, FailureModel};
use crate::json::{from_slice, json_bytes, json_model, json_parse, json_round_trip, to_vec, Json};
use crate::store::{
    after_put, read_of, Contents, OpenReply, Put, PutModel, ReadModel, ReadReply, Slot, SlotModel,
    WriteReply, DEFAULT_NAMESPACE,
};

verus! {

/// The slot of a key of the cache.
pub open spec fn cache_slot(key: Seq<char>) -> SlotModel {
    (DEFAULT_NAMESPACE@, key)
}

/// The write that puts a document under a key of the cache.
pub open spec fn cache_put(key: Seq<char>, document: Json) -> PutModel {
    PutModel { slot: cache_slot(key), value: json_bytes(document) }
}

/// What a read of a key's slot comes to: the document that the bytes hold,
/// nothing where the slot is empty, a decoding failure where the bytes hold no
/// document, and a storage failure where the engine gave none of these.
pub open spec fn cache_read(found: ReadModel) -> Result<Option<Json>, FailureModel> {
    match found {
        ReadModel::Found(bytes) => match json_parse(bytes) {
            Some(document) => Ok(Some(document)),
            None => Err(
                FailureModel {
                    kind: FailureKind::Decoding,
                    message: "Failed to deserialize value from cache"@,
                },
            ),
        },
        ReadModel::Missing => Ok(None),
        _ => Err(
            FailureModel {
                kind: FailureKind::StorageUnavailable,
                message: "Failed to get value from RocksDB"@,
            },
        ),
    }
}

/// The cache's store, as far as it is decided here: where a key lives, what
/// is written for a value, and what the engine's answers mean.
#[derive(Debug, Clone, Copy, PartialEq, Eq, Structural)]
pub struct Cache {}

impl Cache {
    /// The cache over an engine that was asked to open: there is one where
    /// the engine opened, and a storage failure where it did not.
    pub fn new(opened: OpenReply) -> (r: Result<Cache, Failure>)
        ensures
            opened is Opened ==> r is Ok,
            opened is Failed ==> fails_with(
                r,
                FailureKind::StorageUnavailable,
                "Failed to open RocksDB"@,
            ),
    {
        match opened {
            OpenReply::Opened => Ok(Cache {}),
            OpenReply::Failed(_) => Err(
                Failure::new(FailureKind::StorageUnavailable, "Failed to open RocksDB"),
            ),
        }
    }

    /// The slot of a key.
    pub fn slot(key: &str) -> (slot: Slot)
        ensures
            slot@ == cache_slot(key@),
    {
        Slot::new(DEFAULT_NAMESPACE, key)
    }

    /// The write that stores printed bytes under `key`, or the encoding
    /// failure where there are none.
    pub fn put_printed(key: &str, printed: Result<Vec<u8>, serde_json::Error>) -> (r: Result<
        Put,
        Failure,
    >)
        ensures
            match printed {
                Ok(bytes) => r matches Ok(put) && put@ == (PutModel {
                    slot: cache_slot(key@),
                    value: bytes@,
                }),
                Err(_) => fails_with(
                    r,
                    FailureKind::Encoding,
                    "Failed to serialize value for cache"@,
                ),
            },
    {
        match printed {
            Ok(bytes) => Ok(Put { slot: Slot::new(DEFAULT_NAMESPACE, key), value: bytes }),
            Err(_) => Err(
                Failure::new(FailureKind::Encoding, "Failed to serialize value for cache"),
            ),
        }
    }

    /// The write that stores `value` under `key`, in place of what the key
    /// held: the compact text of the value's document goes into the key's
    /// slot. A JSON value always prints, so there is always a write; what
    /// bytes that could not be printed would come to is said by
    /// [`Cache::put_printed`].
    pub fn put(&self, key: &str, value: &serde_json::Value) -> (r: Result<Put, Failure>)
        ensures
            r matches Ok(put) && put@ == cache_put(key@, json_model(*value)),
    {
        Self::put_printed(key, to_vec(value))
    }

    /// What the engine's answer to a write of the cache means.
    pub fn written(reply: WriteReply) -> (r: Result<(), Failure>)
        ensures
            reply is Done ==> r is Ok,
            !(reply is Done) ==> fails_with(
                r,
                FailureKind::StorageUnavailable,
                "Failed to put value into RocksDB"@,
            ),
    {
        match reply {
            WriteReply::Done => Ok(()),
            _ => Err(
                Failure::new(FailureKind::StorageUnavailable, "Failed to put value into RocksDB"),
            ),
        }
    }

    /// The value under a key, from the engine's answer to a read of the key's
    /// slot: see [`cache_read`].
    pub fn get(&self, found: ReadReply) -> (r: Result<Option<serde_json::Value>, Failure>)
        ensures
            match cache_read(found@) {
                Ok(Some(document)) => r matches Ok(Some(value)) && json_model(value) == document,
                Ok(None) => r matches Ok(None),
                Err(expected) => r matches Err(failure) && failure@ == expected,
            },
    {
        match found {
            ReadReply::Found(bytes) => match from_slice(bytes.as_slice()) {
                Ok(value) => Ok(Some(value)),
                Err(_) => Err(
                    Failure::new(FailureKind::Decoding, "Failed to deserialize value from cache"),
                ),
            },
            ReadReply::Missing => Ok(None),
            _ => Err(
                Failure::new(FailureKind::StorageUnavailable, "Failed to get value from RocksDB"),
            ),
        }
    }
}

/// What a document reads as once it went through the store: itself as
/// `serde_json` reads it back from the text that it printed, and a decoding
/// failure where `serde_json` does not read that text.
pub open spec fn read_back(document: Json) -> Result<Option<Json>, FailureModel> {
    match json_round_trip(document) {
        Some(back) => Ok(Some(back)),
        None => Err(
            FailureModel {
                kind: FailureKind::Decoding,
                message: "Failed to deserialize value from cache"@,
            },
        ),
    }
}

/// A value that was put under a key is what a read of the key gets, equal to
/// the value that was put as far as printing and reading it back keeps it.
pub proof fn get_after_put(contents: Contents, key: Seq<char>, document: Json)
    ensures
        cache_read(read_of(after_put(contents, cache_put(key, document)), cache_slot(key)))
            == read_back(document),
        json_round_trip(document) == Some(document) ==> cache_read(
            read_of(after_put(contents, cache_put(key, document)), cache_slot(key)),
        ) == Ok::<Option<Json>, FailureModel>(Some(document)),
{
}

/// A read of a key that was never written gets nothing.
pub proof fn get_of_unwritten_key(contents: Contents, key: Seq<char>)
    requires
        !contents.dom().contains(cache_slot(key)),
    ensures
        cache_read(read_of(contents, cache_slot(key))) == Ok::<Option<Json>, FailureModel>(None),
        cache_read(read_of(Map::<SlotModel, Seq<u8>>::empty(), cache_slot(key))) == Ok::<
            Option<Json>,
            FailureModel,
        >(None),
{
}

/// Of two values put under one key the second stays: a read of the key gets
/// what it would get had the first never been put.
pub proof fn later_put_overwrites(contents: Contents, key: Seq<char>, first: Json, second: Json)
    ensures
        after_put(after_put(contents, cache_put(key, first)), cache_put(key, second)) == after_put(
            contents,
            cache_put(key, second),
        ),
        cache_read(
            read_of(
                after_put(after_put(contents, cache_put(key, first)), cache_put(key, second)),
                cache_slot(key),
            ),
        ) == read_back(second),
{
    assert(after_put(after_put(contents, cache_put(key, first)), cache_put(key, second))
        =~= after_put(contents, cache_put(key, second)));
}

/// A put under one key leaves what a read of any other key gets as it was.
pub proof fn put_leaves_other_keys(contents: Contents, key: Seq<char>, document: Json, other: Seq<char>)
    requires
        other != key,
    ensures
        read_of(after_put(contents, cache_put(key, document)), cache_slot(other)) == read_of(
            contents,
            cache_slot(other),
        ),
{
}

} // verus!
