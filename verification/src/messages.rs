use vstd::prelude::*;
use crate::time::current_timestamp;

verus! {

/// The kind of a ciphertext envelope, mirroring the tags the wire uses.
#[derive(Clone, Copy, Debug, PartialEq, Eq, Structural)]
pub enum CiphertextKind {
    Whisper,
    PreKey,
    SenderKey,
    Plaintext,
}

/// The wire tag of each ciphertext kind.
pub open spec fn spec_kind_tag(kind: CiphertextKind) -> u8 {
    match kind {
        CiphertextKind::Whisper => 2,
        CiphertextKind::PreKey => 3,
        CiphertextKind::SenderKey => 7,
        CiphertextKind::Plaintext => 8,
    }
}

/// An encrypted payload produced by the ratchet boundary, with its kind.
#[derive(Clone, Debug)]
pub struct CiphertextMessage {
    pub kind: CiphertextKind,
    pub bytes: Vec<u8>,
}

impl CiphertextMessage {
    pub fn new(kind: CiphertextKind, bytes: Vec<u8>) -> (r: Self)
        ensures
            r.kind == kind,
            r.bytes@ == bytes@,
    {
        CiphertextMessage { kind, bytes }
    }

    /// The numeric wire tag of this message's kind.
    pub fn message_type(&self) -> (r: u8)
        ensures
            r == spec_kind_tag(self.kind),
    {
        match self.kind {
            CiphertextKind::Whisper => 2,
            CiphertextKind::PreKey => 3,
            CiphertextKind::SenderKey => 7,
            CiphertextKind::Plaintext => 8,
        }
    }
}

/// One per-device envelope of an outbound batch: the ciphertext, its kind
/// tag, and the destination device and registration id.
#[derive(Clone, Debug)]
pub struct SendMetadata {
    pub msg_type: u8,
    pub device_id: u32,
    pub registration_id: u32,
    pub content: CiphertextMessage,
}

impl SendMetadata {
    pub fn new(content: CiphertextMessage, device_id: u32, registration_id: u32) -> (r: Self)
        ensures
            r.msg_type == spec_kind_tag(content.kind),
            r.device_id == device_id,
            r.registration_id == registration_id,
            r.content.kind == content.kind,
            r.content.bytes@ == content.bytes@,
    {
        let msg_type = content.message_type();
        SendMetadata { msg_type, device_id, registration_id, content }
    }
}

/// The outbound batch: every per-device envelope, a send timestamp, and the
/// online flag.
#[derive(Clone, Debug)]
pub struct MessagesWrapper {
    pub messages: Vec<SendMetadata>,
    pub timestamp: u64,
    pub online: bool,
}

impl MessagesWrapper {
    pub fn new(messages: Vec<SendMetadata>) -> (r: Self)
        ensures
            r.messages@ == messages@,
            r.online == false,
    {
        let timestamp = current_timestamp();
        MessagesWrapper { messages, timestamp, online: false }
    }
}

/// The structured device-mismatch reply: the devices the server knows that
/// the sender missed, and the devices the sender used that are gone.
#[derive(Clone, Debug)]
pub struct MessageResponse409 {
    pub missing_devices: Vec<u32>,
    pub extra_devices: Vec<u32>,
}

/// The acceptance reply.
#[derive(Clone, Copy, Debug)]
pub struct MessageResponse200 {
    pub needs_sync: bool,
}

/// The plaintext body of an ordinary message.
#[derive(Clone, Debug)]
pub struct DataMessage {
    pub body: Option<String>,
    pub timestamp: Option<u64>,
}

/// A sent-message transcript for the account's other devices.
#[derive(Clone, Debug)]
pub struct SyncSent {
    pub destination_uuid: Option<String>,
    pub timestamp: Option<u64>,
    pub message: Option<DataMessage>,
}

/// A device-to-device synchronisation message.
#[derive(Clone, Debug)]
pub struct SyncMessage {
    pub sent: Option<SyncSent>,
}

/// The top-level content envelope: an ordinary message or a sync message.
#[derive(Clone, Debug)]
pub struct Content {
    pub data_message: Option<DataMessage>,
    pub sync_message: Option<SyncMessage>,
}

/// An ordinary message carrying the given text, stamped with the current
/// wall-clock time.
pub fn create_data_message(text: String) -> (r: DataMessage)
    ensures
        r.body matches Some(b) && b@ == text@,
        r.timestamp is Some,
{
    DataMessage { body: Some(text), timestamp: Some(current_timestamp()) }
}

/// Wrap an ordinary message as top-level content.
pub fn create_message(data_message: DataMessage) -> (r: Content)
    ensures
        r.data_message == Some(data_message),
        r.sync_message is None,
{
    Content { data_message: Some(data_message), sync_message: None }
}

/// Wrap an ordinary message as a sent-transcript sync message for the given
/// destination.
pub fn create_sync_message(destination_uuid: String, data_message: DataMessage) -> (r: Content)
    ensures
        r.data_message is None,
        r.sync_message matches Some(sync) && sync.sent matches Some(sent) && {
            &&& sent.destination_uuid matches Some(u) && u@ == destination_uuid@
            &&& sent.timestamp == data_message.timestamp
            &&& sent.message == Some(data_message)
        },
{
    let timestamp = data_message.timestamp;
    let sent = SyncSent {
        destination_uuid: Some(destination_uuid),
        timestamp,
        message: Some(data_message),
    };
    Content { data_message: None, sync_message: Some(SyncMessage { sent: Some(sent) }) }
}

} // verus!
