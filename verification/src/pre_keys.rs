use vstd::prelude::*;
use vstd::bytes::spec_u32_to_le_bytes;
use vstd::slice::slice_to_vec;
use crate::error::Error;
use crate::keys::{PreKeyRecord, SignedPreKeyRecord};
use crate::records::{block_fits, key_pair_fits, spec_parse_key_pair, spec_parse_signed_pre_key, spec_ser_pre_key};
use crate::store::{identity_key_pair_slot, StateStore};

verus! {

/// The public face of one one-time pre-key, as published to the server.
#[derive(Clone, Debug)]
pub struct PreKeyEntity {
    pub key_id: u32,
    pub public_key: Vec<u8>,
}

impl PreKeyEntity {
    pub fn new(key_id: u32, public_key: Vec<u8>) -> (r: Self)
        ensures
            r.key_id == key_id,
            r.public_key@ == public_key@,
    {
        PreKeyEntity { key_id, public_key }
    }

    /// The publishable part of a stored pre-key record.
    pub fn from_record(record: &PreKeyRecord) -> (r: Self)
        ensures
            r.key_id == record@.id,
            r.public_key@ == record@.key_pair.public_key,
    {
        PreKeyEntity {
            key_id: record.id,
            public_key: slice_to_vec(record.key_pair.public_key.as_slice()),
        }
    }
}

/// The public face of the signed pre-key: id, public key, and the signature
/// made with the identity private key.
#[derive(Clone, Debug)]
pub struct SignedPreKeyEntity {
    pub key_id: u32,
    pub public_key: Vec<u8>,
    pub signature: Vec<u8>,
}

impl SignedPreKeyEntity {
    pub fn new(record: &SignedPreKeyRecord) -> (r: Self)
        ensures
            r.key_id == record@.id,
            r.public_key@ == record@.key_pair.public_key,
            r.signature@ == record@.signature,
    {
        SignedPreKeyEntity {
            key_id: record.id,
            public_key: slice_to_vec(record.key_pair.public_key.as_slice()),
            signature: slice_to_vec(record.signature.as_slice()),
        }
    }
}

/// Everything published at registration: the identity public key, the batch
/// of one-time pre-keys, and the signed pre-key.
#[derive(Clone, Debug)]
pub struct PreKeyState {
    pub identity_key: Vec<u8>,
    pub pre_keys: Vec<PreKeyEntity>,
    pub signed_pre_key: SignedPreKeyEntity,
}

impl PreKeyState {
    #[verifier::loop_isolation(false)]
    pub fn new(
        identity_key: Vec<u8>,
        pre_keys: &Vec<PreKeyRecord>,
        signed_pre_key: &SignedPreKeyRecord,
    ) -> (r: Self)
        ensures
            r.identity_key@ == identity_key@,
            r.pre_keys@.len() == pre_keys@.len(),
            forall|i: int|
                0 <= i < pre_keys@.len() ==> {
                    &&& (#[trigger] r.pre_keys@[i]).key_id == pre_keys@[i]@.id
                    &&& r.pre_keys@[i].public_key@ == pre_keys@[i]@.key_pair.public_key
                },
            r.signed_pre_key.key_id == signed_pre_key@.id,
            r.signed_pre_key.public_key@ == signed_pre_key@.key_pair.public_key,
            r.signed_pre_key.signature@ == signed_pre_key@.signature,
    {
        let mut entities: Vec<PreKeyEntity> = Vec::new();
        let mut idx: usize = 0;
        while idx < pre_keys.len()
            invariant
                idx <= pre_keys@.len(),
                entities@.len() == idx,
                forall|i: int|
                    0 <= i < idx ==> {
                        &&& (#[trigger] entities@[i]).key_id == pre_keys@[i]@.id
                        &&& entities@[i].public_key@ == pre_keys@[i]@.key_pair.public_key
                    },
            decreases pre_keys@.len() - idx,
        {
            entities.push(PreKeyEntity::from_record(&pre_keys[idx]));
            idx = idx + 1;
        }
        PreKeyState {
            identity_key,
            pre_keys: entities,
            signed_pre_key: SignedPreKeyEntity::new(signed_pre_key),
        }
    }
}

/// What the server hands out for one remote device: its ids, its signed
/// pre-key entity, and one one-time pre-key entity.
#[derive(Clone, Debug)]
pub struct DevicePreKeys {
    pub device_id: u32,
    pub registration_id: u32,
    pub signed_pre_key: SignedPreKeyEntity,
    pub pre_key: PreKeyEntity,
}

/// The material needed to open a session with one device without its live
/// participation.
#[derive(Clone, Debug)]
pub struct PreKeyBundle {
    pub registration_id: u32,
    pub device_id: u32,
    pub pre_key_id: u32,
    pub pre_key_public: Vec<u8>,
    pub signed_pre_key_id: u32,
    pub signed_pre_key_public: Vec<u8>,
    pub signed_pre_key_signature: Vec<u8>,
    pub identity_key: Vec<u8>,
}

impl DevicePreKeys {
    /// Combine one device's keys with the party's identity key into a
    /// bundle ready for the key-agreement boundary.
    pub fn into_bundle(self, identity_key: Vec<u8>) -> (r: PreKeyBundle)
        ensures
            r.registration_id == self.registration_id,
            r.device_id == self.device_id,
            r.pre_key_id == self.pre_key.key_id,
            r.pre_key_public@ == self.pre_key.public_key@,
            r.signed_pre_key_id == self.signed_pre_key.key_id,
            r.signed_pre_key_public@ == self.signed_pre_key.public_key@,
            r.signed_pre_key_signature@ == self.signed_pre_key.signature@,
            r.identity_key@ == identity_key@,
    {
        PreKeyBundle {
            registration_id: self.registration_id,
            device_id: self.device_id,
            pre_key_id: self.pre_key.key_id,
            pre_key_public: self.pre_key.public_key,
            signed_pre_key_id: self.signed_pre_key.key_id,
            signed_pre_key_public: self.signed_pre_key.public_key,
            signed_pre_key_signature: self.signed_pre_key.signature,
            identity_key,
        }
    }
}

/// What the server reports for a whole recipient: its identity key and one
/// entry per device.
#[derive(Clone, Debug)]
pub struct DeviceKeys {
    pub identity_key: Vec<u8>,
    pub devices: Vec<DevicePreKeys>,
}

impl DeviceKeys {
    /// One bundle per reported device, each carrying the party's identity
    /// key.
    #[verifier::loop_isolation(false)]
    pub fn into_bundles(self) -> (r: Vec<PreKeyBundle>)
        ensures
            r@.len() == self.devices@.len(),
            forall|i: int|
                0 <= i < self.devices@.len() ==> {
                    &&& (#[trigger] r@[i]).device_id == self.devices@[i].device_id
                    &&& r@[i].registration_id == self.devices@[i].registration_id
                    &&& r@[i].pre_key_id == self.devices@[i].pre_key.key_id
                    &&& r@[i].pre_key_public@ == self.devices@[i].pre_key.public_key@
                    &&& r@[i].signed_pre_key_id == self.devices@[i].signed_pre_key.key_id
                    &&& r@[i].signed_pre_key_public@ == self.devices@[i].signed_pre_key.public_key@
                    &&& r@[i].signed_pre_key_signature@
                        == self.devices@[i].signed_pre_key.signature@
                    &&& r@[i].identity_key@ == self.identity_key@
                },
    {
        let ghost devices_view = self.devices@;
        let identity_key = self.identity_key;
        let mut out: Vec<PreKeyBundle> = Vec::new();
        let mut rest = self.devices;
        while rest.len() > 0
            invariant
                out@.len() + rest@.len() == devices_view.len(),
                rest@ == devices_view.skip(out@.len() as int),
                forall|i: int|
                    0 <= i < out@.len() ==> {
                        &&& (#[trigger] out@[i]).device_id == devices_view[i].device_id
                        &&& out@[i].registration_id == devices_view[i].registration_id
                        &&& out@[i].pre_key_id == devices_view[i].pre_key.key_id
                        &&& out@[i].pre_key_public@ == devices_view[i].pre_key.public_key@
                        &&& out@[i].signed_pre_key_id == devices_view[i].signed_pre_key.key_id
                        &&& out@[i].signed_pre_key_public@
                            == devices_view[i].signed_pre_key.public_key@
                        &&& out@[i].signed_pre_key_signature@
                            == devices_view[i].signed_pre_key.signature@
                        &&& out@[i].identity_key@ == identity_key@
                    },
            decreases rest@.len(),
        {
            let device = rest.remove(0);
            let ikey = slice_to_vec(identity_key.as_slice());
            proof {
                assert(device == devices_view[out@.len() as int]);
                assert(rest@ =~= devices_view.skip(out@.len() as int + 1));
            }
            out.push(device.into_bundle(ikey));
        }
        out
    }
}

/// The registration-time initialisation of the pre-key collections:
/// persists each freshly generated one-time pre-key under its id, persists
/// the signed pre-key under its id, and assembles the publishable state.
#[verifier::loop_isolation(false)]
pub fn initialize_pre_keys(
    store: &mut StateStore,
    pre_keys: &Vec<PreKeyRecord>,
    signed_pre_key: &SignedPreKeyRecord,
) -> (r: Result<PreKeyState, Error>)
    requires
        forall|i: int| 0 <= i < pre_keys@.len() ==> key_pair_fits((#[trigger] pre_keys@[i])@.key_pair),
        key_pair_fits(signed_pre_key@.key_pair),
        block_fits(signed_pre_key@.signature),
    ensures
        (match r {
            Ok(state) => {
                &&& (forall|i: int|
                    0 <= i < pre_keys@.len() ==> {
                        let key = spec_u32_to_le_bytes((#[trigger] pre_keys@[i])@.id);
                        &&& final(store).pre_keys_view().contains_key(key)
                    })
                &&& ((forall|i: int, j: int|
                    0 <= i < j < pre_keys@.len() ==> (#[trigger] pre_keys@[i])@.id != (
                    #[trigger] pre_keys@[j])@.id) ==> (forall|i: int|
                    0 <= i < pre_keys@.len()
                        ==> final(store).pre_keys_view()[spec_u32_to_le_bytes(
                        (#[trigger] pre_keys@[i])@.id,
                    )] == spec_ser_pre_key(pre_keys@[i]@)))
                &&& final(store).signed_pre_keys_view().contains_key(
                    spec_u32_to_le_bytes(signed_pre_key@.id),
                )
                &&& spec_parse_signed_pre_key(
                    final(store).signed_pre_keys_view()[spec_u32_to_le_bytes(signed_pre_key@.id)],
                ) == Some(signed_pre_key@)
                &&& state.pre_keys@.len() == pre_keys@.len()
                &&& (forall|i: int|
                    0 <= i < pre_keys@.len() ==> {
                        &&& (#[trigger] state.pre_keys@[i]).key_id == pre_keys@[i]@.id
                        &&& state.pre_keys@[i].public_key@ == pre_keys@[i]@.key_pair.public_key
                    })
                &&& state.signed_pre_key.key_id == signed_pre_key@.id
                &&& old(store).credentials_view().contains_key(identity_key_pair_slot())
                &&& (spec_parse_key_pair(
                    old(store).credentials_view()[identity_key_pair_slot()],
                ) matches Some(kp) && state.identity_key@ == kp.public_key)
            },
            Err(e) => e is Storage || e is CorruptRecord || e is Uninitialized,
        }),
        final(store).sessions_view() == old(store).sessions_view(),
        final(store).identities_view() == old(store).identities_view(),
        final(store).credentials_view() == old(store).credentials_view(),
        final(store).kyber_pre_keys_view() == old(store).kyber_pre_keys_view(),
{
    let identity_key_pair = store.get_identity_key_pair()?;
    let mut idx: usize = 0;
    while idx < pre_keys.len()
        invariant
            idx <= pre_keys@.len(),
            forall|i: int|
                0 <= i < idx ==> {
                    let key = spec_u32_to_le_bytes((#[trigger] pre_keys@[i])@.id);
                    store.pre_keys_view().contains_key(key)
                },
            (forall|i: int, j: int|
                0 <= i < j < pre_keys@.len() ==> (#[trigger] pre_keys@[i])@.id != (
                #[trigger] pre_keys@[j])@.id) ==> (forall|i: int|
                0 <= i < idx ==> store.pre_keys_view()[spec_u32_to_le_bytes(
                    (#[trigger] pre_keys@[i])@.id,
                )] == spec_ser_pre_key(pre_keys@[i]@)),
            store.sessions_view() == old(store).sessions_view(),
            store.identities_view() == old(store).identities_view(),
            store.credentials_view() == old(store).credentials_view(),
            store.kyber_pre_keys_view() == old(store).kyber_pre_keys_view(),
            store.signed_pre_keys_view() == old(store).signed_pre_keys_view(),
        decreases pre_keys@.len() - idx,
    {
        store.save_pre_key(pre_keys[idx].id, &pre_keys[idx])?;
        proof {
            vstd::bytes::lemma_auto_spec_u32_to_from_le_bytes();
        }
        idx = idx + 1;
    }
    store.save_signed_pre_key(signed_pre_key.id, signed_pre_key)?;
    proof {
        crate::records::lemma_signed_pre_key_round_trip(signed_pre_key@);
    }
    Ok(PreKeyState::new(identity_key_pair.public_key, pre_keys, signed_pre_key))
}

} // verus!
