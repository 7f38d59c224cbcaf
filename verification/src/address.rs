use vstd::prelude::*;
use vstd::bytes::{lemma_auto_spec_u32_to_from_le_bytes, spec_u32_from_le_bytes, spec_u32_to_le_bytes, u32_from_le_bytes, u32_to_le_bytes};
use vstd::slice::{slice_subrange, slice_to_vec};

verus! {

/// The number of trailing key bytes that hold the device index.
pub const DEVICE_ID_SIZE: usize = 4;

/// A remote party: a user identifier plus a device index.
#[derive(Clone, Debug)]
pub struct ProtocolAddress {
    pub name: Vec<u8>,
    pub device_id: u32,
}

impl ProtocolAddress {
    pub fn new(name: Vec<u8>, device_id: u32) -> (r: Self)
        ensures
            r.name@ == name@,
            r.device_id == device_id,
    {
        ProtocolAddress { name, device_id }
    }
}

/// The storage key of a per-device record: the user identifier's raw bytes
/// followed by the fixed-width little-endian device index, so that a scan
/// over the identifier bytes finds exactly that user's devices.
pub open spec fn spec_address_key(name: Seq<u8>, device_id: u32) -> Seq<u8> {
    name + spec_u32_to_le_bytes(device_id)
}

/// The identifier part of a storage key.
pub open spec fn spec_key_name(key: Seq<u8>) -> Seq<u8>
    recommends
        key.len() >= DEVICE_ID_SIZE,
{
    key.take(key.len() - DEVICE_ID_SIZE as int)
}

/// The device index part of a storage key.
pub open spec fn spec_key_device_id(key: Seq<u8>) -> u32
    recommends
        key.len() >= DEVICE_ID_SIZE,
{
    spec_u32_from_le_bytes(key.skip(key.len() - DEVICE_ID_SIZE as int))
}

/// A storage key in its raw form.
#[derive(Clone, Debug)]
pub struct ProtocolAddressBytes {
    bytes: Vec<u8>,
}

impl View for ProtocolAddressBytes {
    type V = Seq<u8>;

    closed spec fn view(&self) -> Seq<u8> {
        self.bytes@
    }
}

impl ProtocolAddressBytes {
    /// A key is well formed when it is long enough to carry a device index.
    pub open spec fn wf(self) -> bool {
        self@.len() >= DEVICE_ID_SIZE
    }

    pub fn new(bytes: Vec<u8>) -> (r: Self)
        ensures
            r@ == bytes@,
    {
        ProtocolAddressBytes { bytes }
    }

    /// The identifier bytes: everything before the trailing device index.
    pub fn name_bytes(&self) -> (r: Vec<u8>)
        requires
            self.wf(),
        ensures
            r@ == spec_key_name(self@),
    {
        let end: usize = self.bytes.len() - DEVICE_ID_SIZE;
        let s: &[u8] = slice_subrange(self.bytes.as_slice(), 0, end);
        slice_to_vec(s)
    }

    /// The trailing device index bytes.
    pub fn device_id_bytes(&self) -> (r: Vec<u8>)
        requires
            self.wf(),
        ensures
            r@ == self@.skip(self@.len() - DEVICE_ID_SIZE as int),
            r@.len() == DEVICE_ID_SIZE,
    {
        let start: usize = self.bytes.len() - DEVICE_ID_SIZE;
        let s: &[u8] = slice_subrange(self.bytes.as_slice(), start, self.bytes.len());
        slice_to_vec(s)
    }

    /// The raw key bytes.
    pub fn bytes(&self) -> (r: &Vec<u8>)
        ensures
            r@ == self@,
    {
        &self.bytes
    }

    /// Encode an address into its storage key.
    pub fn from_address(addr: &ProtocolAddress) -> (r: Self)
        ensures
            r@ == spec_address_key(addr.name@, addr.device_id),
            r.wf(),
    {
        let mut bytes = addr.name.clone();
        let mut tail = u32_to_le_bytes(addr.device_id);
        bytes.append(&mut tail);
        ProtocolAddressBytes { bytes }
    }

    /// Decode a storage key back into an address.
    pub fn to_address(&self) -> (r: ProtocolAddress)
        requires
            self.wf(),
        ensures
            r.name@ == spec_key_name(self@),
            r.device_id == spec_key_device_id(self@),
    {
        let name = self.name_bytes();
        let tail = self.device_id_bytes();
        let device_id = u32_from_le_bytes(tail.as_slice());
        ProtocolAddress { name, device_id }
    }
}

/// Encoding an address and splitting the key again gives the address back.
pub proof fn lemma_address_key_round_trip(name: Seq<u8>, device_id: u32)
    ensures
        spec_key_name(spec_address_key(name, device_id)) == name,
        spec_key_device_id(spec_address_key(name, device_id)) == device_id,
{
    lemma_auto_spec_u32_to_from_le_bytes();
    let key = spec_address_key(name, device_id);
    assert(spec_key_name(key) =~= name);
    assert(key.skip(key.len() - DEVICE_ID_SIZE as int) =~= spec_u32_to_le_bytes(device_id));
}

/// Splitting any long-enough key and re-encoding the parts gives the same key.
pub proof fn lemma_key_reassemble(key: Seq<u8>)
    requires
        key.len() >= DEVICE_ID_SIZE,
    ensures
        spec_address_key(spec_key_name(key), spec_key_device_id(key)) == key,
{
    lemma_auto_spec_u32_to_from_le_bytes();
    let tail = key.skip(key.len() - DEVICE_ID_SIZE as int);
    assert(tail.len() == 4);
    assert(spec_u32_to_le_bytes(spec_u32_from_le_bytes(tail)) == tail);
    assert(spec_address_key(spec_key_name(key), spec_key_device_id(key)) =~= key);
}

/// Every key an address encodes to starts with that address's identifier.
pub proof fn lemma_key_starts_with_own_name(name: Seq<u8>, device_id: u32)
    ensures
        name.is_prefix_of(spec_address_key(name, device_id)),
{
    lemma_auto_spec_u32_to_from_le_bytes();
    assert(name =~= spec_address_key(name, device_id).subrange(0, name.len() as int));
}

/// Keys of one party never show up in a scan for another: when neither
/// identifier is a prefix of the other, no key built from the first
/// identifier starts with the second.
pub proof fn lemma_prefix_isolation(name_a: Seq<u8>, name_b: Seq<u8>, device_id: u32)
    requires
        !name_a.is_prefix_of(name_b),
        !name_b.is_prefix_of(name_a),
    ensures
        !name_b.is_prefix_of(spec_address_key(name_a, device_id)),
{
    lemma_auto_spec_u32_to_from_le_bytes();
    let key = spec_address_key(name_a, device_id);
    if name_b.is_prefix_of(key) {
        if name_b.len() <= name_a.len() {
            assert(name_b =~= name_a.subrange(0, name_b.len() as int));
        } else {
            assert(name_a =~= name_b.subrange(0, name_a.len() as int));
        }
    }
}

} // verus!
