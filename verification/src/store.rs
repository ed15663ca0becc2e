//! The conversation with the storage engine.
//!
//! The engine itself, an on-disk key-value store with independent namespaces,
//! is driven by the program around this library. The library decides what is
//! written and read, under which key and in which namespace, and what an
//! answer of the engine means. This module holds the words of that
//! conversation, and the mathematical picture of an engine's contents that the
//! laws of the other modules are stated over.

use vstd::prelude::*;

verus! {

/// The namespace that an engine has from the start.
pub const DEFAULT_NAMESPACE: &'static str = "default";

/// A place in the engine: a key inside a namespace.
#[derive(Debug, Clone, PartialEq, Eq)]
pub struct Slot {
    pub namespace: String,
    pub key: String,
}

/// A write for the engine to perform: the bytes to put into a slot,
/// in place of whatever the slot held.
#[derive(Debug, Clone, PartialEq, Eq)]
pub struct Put {
    pub slot: Slot,
    pub value: Vec<u8>,
}

/// What the engine answered when it was opened.
#[derive(Debug, Clone, PartialEq, Eq)]
pub enum OpenReply {
    /// The engine is open, with the namespaces that were asked for.
    Opened,
    /// The location could not be created or opened; this is the message.
    Failed(String),
}

/// What the engine answered to a read of one slot.
#[derive(Debug, Clone, PartialEq, Eq)]
pub enum ReadReply {
    /// The slot holds these bytes.
    Found(Vec<u8>),
    /// The slot is empty.
    Missing,
    /// The engine has no such namespace.
    NoNamespace,
    /// The engine failed, with this message.
    Failed(String),
}

/// What the engine answered to a write.
#[derive(Debug, Clone, PartialEq, Eq)]
pub enum WriteReply {
    /// The slot now holds the bytes.
    Done,
    /// The engine has no such namespace.
    NoNamespace,
    /// The engine failed, with this message.
    Failed(String),
}

/// What the engine answered to a scan of one namespace.
#[derive(Debug, Clone, PartialEq, Eq)]
pub enum ScanReply {
    /// The value of every slot of the namespace, in the engine's order.
    Values(Vec<Vec<u8>>),
    /// The engine has no such namespace.
    NoNamespace,
    /// The engine failed, with this message.
    Failed(String),
}

/// A [`Slot`] as a mathematical value: the namespace, then the key.
pub type SlotModel = (Seq<char>, Seq<char>);

/// What an engine holds: the bytes in each slot that is not empty.
pub type Contents = Map<SlotModel, Seq<u8>>;

impl View for Slot {
    type V = SlotModel;

    open spec fn view(&self) -> SlotModel {
        (self.namespace@, self.key@)
    }
}

/// A [`Put`] as a mathematical value.
pub struct PutModel {
    pub slot: SlotModel,
    pub value: Seq<u8>,
}

impl View for Put {
    type V = PutModel;

    open spec fn view(&self) -> PutModel {
        PutModel { slot: self.slot@, value: self.value@ }
    }
}

/// A [`ReadReply`] as a mathematical value.
pub enum ReadModel {
    Found(Seq<u8>),
    Missing,
    NoNamespace,
    Failed(Seq<char>),
}

impl View for ReadReply {
    type V = ReadModel;

    open spec fn view(&self) -> ReadModel {
        match self {
            ReadReply::Found(bytes) => ReadModel::Found(bytes@),
            ReadReply::Missing => ReadModel::Missing,
            ReadReply::NoNamespace => ReadModel::NoNamespace,
            ReadReply::Failed(message) => ReadModel::Failed(message@),
        }
    }
}

/// The contents of an engine after it has performed a write.
pub open spec fn after_put(contents: Contents, put: PutModel) -> Contents {
    contents.insert(put.slot, put.value)
}

/// What an engine that works answers to a read of a slot.
pub open spec fn read_of(contents: Contents, slot: SlotModel) -> ReadModel {
    if contents.dom().contains(slot) {
        ReadModel::Found(contents[slot])
    } else {
        ReadModel::Missing
    }
}

/// Whether `values` is a scan of a namespace: the value of each of its slots
/// once, `keys` telling which slot each value came from.
pub open spec fn is_scan(
    contents: Contents,
    namespace: Seq<char>,
    keys: Seq<Seq<char>>,
    values: Seq<Seq<u8>>,
) -> bool {
    &&& keys.len() == values.len()
    &&& keys.no_duplicates()
    &&& forall|key: Seq<char>| #[trigger]
        keys.contains(key) <==> contents.dom().contains((namespace, key))
    &&& forall|i: int|
        0 <= i < keys.len() ==> #[trigger] values[i] == contents[(namespace, keys[i])]
}

impl Slot {
    /// The slot of `key` in `namespace`.
    pub fn new(namespace: &str, key: &str) -> (slot: Slot)
        ensures
            slot@ == (namespace@, key@),
    {
        Slot { namespace: String::from_str(namespace), key: String::from_str(key) }
    }
}

} // verus!
