use vstd::prelude::*;
use crate::random::random_bytes;
use crate::time::current_timestamp;

verus! {

/// The byte length of one curve key.
pub const KEY_LEN: usize = 32;

/// An asymmetric key pair, held as raw bytes. The curve arithmetic itself
/// lives outside this crate; here a key pair is opaque material.
#[derive(Clone, Debug)]
pub struct KeyPairBytes {
    pub public_key: Vec<u8>,
    pub private_key: Vec<u8>,
}

pub ghost struct KeyPairV {
    pub public_key: Seq<u8>,
    pub private_key: Seq<u8>,
}

impl View for KeyPairBytes {
    type V = KeyPairV;

    open spec fn view(&self) -> KeyPairV {
        KeyPairV { public_key: self.public_key@, private_key: self.private_key@ }
    }
}

impl KeyPairBytes {
    pub fn new(public_key: Vec<u8>, private_key: Vec<u8>) -> (r: Self)
        ensures
            r@.public_key == public_key@,
            r@.private_key == private_key@,
    {
        KeyPairBytes { public_key, private_key }
    }
}

/// Fresh key material from the secure randomness source.
pub fn generate_key_pair() -> (r: KeyPairBytes)
    ensures
        r@.public_key.len() == KEY_LEN,
        r@.private_key.len() == KEY_LEN,
{
    let public_key = random_bytes(KEY_LEN);
    let private_key = random_bytes(KEY_LEN);
    KeyPairBytes { public_key, private_key }
}

/// One single-use pre-key: a small positive id and a key pair.
#[derive(Clone, Debug)]
pub struct PreKeyRecord {
    pub id: u32,
    pub key_pair: KeyPairBytes,
}

pub ghost struct PreKeyRecordV {
    pub id: u32,
    pub key_pair: KeyPairV,
}

impl View for PreKeyRecord {
    type V = PreKeyRecordV;

    open spec fn view(&self) -> PreKeyRecordV {
        PreKeyRecordV { id: self.id, key_pair: self.key_pair@ }
    }
}

impl PreKeyRecord {
    pub fn new(id: u32, key_pair: KeyPairBytes) -> (r: Self)
        ensures
            r@.id == id,
            r@.key_pair == key_pair@,
    {
        PreKeyRecord { id, key_pair }
    }
}

/// The medium-term signed pre-key: id, creation time, key pair, and a
/// signature over the public key made with the identity private key.
#[derive(Clone, Debug)]
pub struct SignedPreKeyRecord {
    pub id: u32,
    pub timestamp: u64,
    pub key_pair: KeyPairBytes,
    pub signature: Vec<u8>,
}

pub ghost struct SignedPreKeyRecordV {
    pub id: u32,
    pub timestamp: u64,
    pub key_pair: KeyPairV,
    pub signature: Seq<u8>,
}

impl View for SignedPreKeyRecord {
    type V = SignedPreKeyRecordV;

    open spec fn view(&self) -> SignedPreKeyRecordV {
        SignedPreKeyRecordV {
            id: self.id,
            timestamp: self.timestamp,
            key_pair: self.key_pair@,
            signature: self.signature@,
        }
    }
}

impl SignedPreKeyRecord {
    pub fn new(id: u32, timestamp: u64, key_pair: KeyPairBytes, signature: Vec<u8>) -> (r: Self)
        ensures
            r@.id == id,
            r@.timestamp == timestamp,
            r@.key_pair == key_pair@,
            r@.signature == signature@,
    {
        SignedPreKeyRecord { id, timestamp, key_pair, signature }
    }
}

/// The durable ratchet state for one remote device: the peer's registration
/// id, whether the session has been archived (superseded but kept so that
/// in-flight messages can still be read), and the opaque ratchet bytes.
#[derive(Clone, Debug)]
pub struct SessionRecord {
    pub registration_id: u32,
    pub archived: bool,
    pub state: Vec<u8>,
}

pub ghost struct SessionRecordV {
    pub registration_id: u32,
    pub archived: bool,
    pub state: Seq<u8>,
}

impl View for SessionRecord {
    type V = SessionRecordV;

    open spec fn view(&self) -> SessionRecordV {
        SessionRecordV {
            registration_id: self.registration_id,
            archived: self.archived,
            state: self.state@,
        }
    }
}

impl SessionRecord {
    pub fn new(registration_id: u32, state: Vec<u8>) -> (r: Self)
        ensures
            r@.registration_id == registration_id,
            r@.archived == false,
            r@.state == state@,
    {
        SessionRecord { registration_id, archived: false, state }
    }

    /// The peer's registration id, recorded when the session was established.
    pub fn remote_registration_id(&self) -> (r: u32)
        ensures
            r == self@.registration_id,
    {
        self.registration_id
    }

    /// Mark the session superseded. The record stays in the store so that
    /// trailing messages from the dropped device can still be decrypted.
    pub fn archive_current_state(&mut self)
        ensures
            final(self)@ == (SessionRecordV { archived: true, ..old(self)@ }),
    {
        self.archived = true;
    }
}

/// One post-quantum pre-key slot: an id and the opaque record bytes.
#[derive(Clone, Debug)]
pub struct KyberPreKeyRecord {
    pub id: u32,
    pub state: Vec<u8>,
}

pub ghost struct KyberPreKeyRecordV {
    pub id: u32,
    pub state: Seq<u8>,
}

impl View for KyberPreKeyRecord {
    type V = KyberPreKeyRecordV;

    open spec fn view(&self) -> KyberPreKeyRecordV {
        KyberPreKeyRecordV { id: self.id, state: self.state@ }
    }
}

impl KyberPreKeyRecord {
    pub fn new(id: u32, state: Vec<u8>) -> (r: Self)
        ensures
            r@.id == id,
            r@.state == state@,
    {
        KyberPreKeyRecord { id, state }
    }
}

/// The signed pre-key assembled from a fresh key pair and the signature the
/// identity private key made over its public half, stamped with the current
/// wall-clock time.
pub fn generate_signed_pre_key(id: u32, key_pair: KeyPairBytes, signature: Vec<u8>) -> (r:
    SignedPreKeyRecord)
    ensures
        r@.id == id,
        r@.key_pair == key_pair@,
        r@.signature == signature@,
{
    SignedPreKeyRecord::new(id, current_timestamp(), key_pair, signature)
}

/// A batch of fresh pre-keys with ids assigned sequentially from
/// `start_index`.
pub fn generate_pre_keys_from_id(n: u32, start_index: u32) -> (r: Vec<PreKeyRecord>)
    requires
        start_index as int + n as int <= u32::MAX as int + 1,
    ensures
        r@.len() == n,
        forall|i: int| 0 <= i < n ==> #[trigger] r@[i]@.id == start_index + i,
        forall|i: int|
            0 <= i < n ==> ((#[trigger] r@[i])@.key_pair.public_key.len() == KEY_LEN
                && r@[i]@.key_pair.private_key.len() == KEY_LEN),
{
    let mut out: Vec<PreKeyRecord> = Vec::new();
    let mut i: u32 = 0;
    while i < n
        invariant
            i <= n,
            start_index as int + n as int <= u32::MAX as int + 1,
            out@.len() == i,
            forall|j: int| 0 <= j < i ==> #[trigger] out@[j]@.id == start_index + j,
            forall|j: int|
                0 <= j < i ==> ((#[trigger] out@[j])@.key_pair.public_key.len() == KEY_LEN
                    && out@[j]@.key_pair.private_key.len() == KEY_LEN),
        decreases n - i,
    {
        out.push(PreKeyRecord::new(start_index + i, generate_key_pair()));
        i = i + 1;
    }
    out
}

/// A batch of fresh pre-keys with ids assigned sequentially starting at 1.
pub fn generate_pre_keys(n: u32) -> (r: Vec<PreKeyRecord>)
    requires
        n < u32::MAX,
    ensures
        r@.len() == n,
        forall|i: int| 0 <= i < n ==> #[trigger] r@[i]@.id == 1 + i,
        forall|i: int|
            0 <= i < n ==> ((#[trigger] r@[i])@.key_pair.public_key.len() == KEY_LEN
                && r@[i]@.key_pair.private_key.len() == KEY_LEN),
{
    generate_pre_keys_from_id(n, 1)
}

/// Pre-key ids assigned sequentially never collide: a batch of `n` records
/// whose ids run from `start_index` holds `n` pairwise distinct ids.
pub proof fn lemma_pre_key_ids_unique(keys: Seq<PreKeyRecord>, start_index: u32)
    requires
        forall|i: int| 0 <= i < keys.len() ==> #[trigger] keys[i]@.id == start_index + i,
    ensures
        forall|i: int, j: int|
            0 <= i < keys.len() && 0 <= j < keys.len() && i != j
                ==> #[trigger] keys[i]@.id != #[trigger] keys[j]@.id,
{
}

} // verus!
