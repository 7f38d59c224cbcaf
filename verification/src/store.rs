use vstd::prelude::*;
use vstd::bytes::{spec_u32_from_le_bytes, spec_u32_to_le_bytes, u32_from_le_bytes, u32_to_le_bytes};
use vstd::slice::slice_to_vec;
use vstd::string::*;
use crate::address::{lemma_address_key_round_trip, lemma_key_reassemble, spec_address_key, spec_key_device_id, spec_key_name, ProtocolAddress, ProtocolAddressBytes, DEVICE_ID_SIZE};
use crate::codec::{spec_decimal, u32_decimal};
use crate::error::Error;
use crate::keys::{KeyPairBytes, KyberPreKeyRecord, PreKeyRecord, SessionRecord, SignedPreKeyRecord};
use crate::kv::{kv_get, kv_insert, kv_remove, kv_scan_prefix, tree_view};
use crate::records::{key_pair_fits, block_fits, spec_parse_key_pair, spec_parse_kyber, spec_parse_pre_key, spec_parse_session, spec_parse_signed_pre_key, spec_ser_key_pair, spec_ser_kyber, spec_ser_pre_key, spec_ser_session, spec_ser_signed_pre_key};

verus! {

/// The durable protocol-state store: one key-value database, partitioned
/// into one tree per logical collection.
pub struct StateStore {
    sessions: sled::Tree,
    pre_keys: sled::Tree,
    signed_pre_keys: sled::Tree,
    kyber_pre_keys: sled::Tree,
    identities: sled::Tree,
    credentials: sled::Tree,
}

impl StateStore {
    /// The per-device ratchet sessions.
    pub closed spec fn sessions_view(self) -> Map<Seq<u8>, Seq<u8>> {
        tree_view(self.sessions)
    }

    /// The one-time pre-keys, keyed by id.
    pub closed spec fn pre_keys_view(self) -> Map<Seq<u8>, Seq<u8>> {
        tree_view(self.pre_keys)
    }

    /// The signed pre-keys, keyed by id.
    pub closed spec fn signed_pre_keys_view(self) -> Map<Seq<u8>, Seq<u8>> {
        tree_view(self.signed_pre_keys)
    }

    /// The post-quantum pre-keys, keyed by id.
    pub closed spec fn kyber_pre_keys_view(self) -> Map<Seq<u8>, Seq<u8>> {
        tree_view(self.kyber_pre_keys)
    }

    /// The last-seen identity key of each remote address.
    pub closed spec fn identities_view(self) -> Map<Seq<u8>, Seq<u8>> {
        tree_view(self.identities)
    }

    /// The account's own credentials.
    pub closed spec fn credentials_view(self) -> Map<Seq<u8>, Seq<u8>> {
        tree_view(self.credentials)
    }
}

/// All collections but the sessions are the same in both stores.
pub open spec fn non_session_views_unchanged(a: StateStore, b: StateStore) -> bool {
    &&& a.pre_keys_view() == b.pre_keys_view()
    &&& a.signed_pre_keys_view() == b.signed_pre_keys_view()
    &&& a.kyber_pre_keys_view() == b.kyber_pre_keys_view()
    &&& a.identities_view() == b.identities_view()
    &&& a.credentials_view() == b.credentials_view()
}

/// All collections but the known identities are the same in both stores.
pub open spec fn non_identity_views_unchanged(a: StateStore, b: StateStore) -> bool {
    &&& a.sessions_view() == b.sessions_view()
    &&& a.pre_keys_view() == b.pre_keys_view()
    &&& a.signed_pre_keys_view() == b.signed_pre_keys_view()
    &&& a.kyber_pre_keys_view() == b.kyber_pre_keys_view()
    &&& a.credentials_view() == b.credentials_view()
}

/// All collections but the one-time pre-keys are the same in both stores.
pub open spec fn non_pre_key_views_unchanged(a: StateStore, b: StateStore) -> bool {
    &&& a.sessions_view() == b.sessions_view()
    &&& a.signed_pre_keys_view() == b.signed_pre_keys_view()
    &&& a.kyber_pre_keys_view() == b.kyber_pre_keys_view()
    &&& a.identities_view() == b.identities_view()
    &&& a.credentials_view() == b.credentials_view()
}

/// All collections but the signed pre-keys are the same in both stores.
pub open spec fn non_signed_pre_key_views_unchanged(a: StateStore, b: StateStore) -> bool {
    &&& a.sessions_view() == b.sessions_view()
    &&& a.pre_keys_view() == b.pre_keys_view()
    &&& a.kyber_pre_keys_view() == b.kyber_pre_keys_view()
    &&& a.identities_view() == b.identities_view()
    &&& a.credentials_view() == b.credentials_view()
}

/// All collections but the post-quantum pre-keys are the same in both stores.
pub open spec fn non_kyber_views_unchanged(a: StateStore, b: StateStore) -> bool {
    &&& a.sessions_view() == b.sessions_view()
    &&& a.pre_keys_view() == b.pre_keys_view()
    &&& a.signed_pre_keys_view() == b.signed_pre_keys_view()
    &&& a.identities_view() == b.identities_view()
    &&& a.credentials_view() == b.credentials_view()
}

/// All collections but the credentials are the same in both stores.
pub open spec fn non_credential_views_unchanged(a: StateStore, b: StateStore) -> bool {
    &&& a.sessions_view() == b.sessions_view()
    &&& a.pre_keys_view() == b.pre_keys_view()
    &&& a.signed_pre_keys_view() == b.signed_pre_keys_view()
    &&& a.kyber_pre_keys_view() == b.kyber_pre_keys_view()
    &&& a.identities_view() == b.identities_view()
}

impl StateStore {
    /// Relies on `sled::open` and `Db::open_tree`: opens (or creates) the
    /// database under the data directory and its six named trees.
    #[verifier::external_body]
    fn open_at(data_dir: &str) -> (r: Result<StateStore, Error>)
        ensures
            r matches Err(e) ==> e is Storage,
    {
        let err = |e: sled::Error| Error::Storage(format!("{}", e));
        let db = sled::open(data_dir).map_err(err)?;
        Ok(
            StateStore {
                sessions: db.open_tree("sessions").map_err(err)?,
                pre_keys: db.open_tree("pre-keys").map_err(err)?,
                signed_pre_keys: db.open_tree("signed-pre-keys").map_err(err)?,
                kyber_pre_keys: db.open_tree("kyber-pre-keys").map_err(err)?,
                identities: db.open_tree("identities").map_err(err)?,
                credentials: db.open_tree("credentials").map_err(err)?,
            },
        )
    }

    /// Relies on `sled::Config` with `temporary` and `Db::open_tree`: a
    /// throwaway database in a fresh location starts with empty trees and is
    /// removed when dropped.
    #[verifier::external_body]
    fn open_scratch() -> (r: Result<StateStore, Error>)
        ensures
            (match r {
                Ok(s) => {
                    &&& s.sessions_view() == Map::<Seq<u8>, Seq<u8>>::empty()
                    &&& s.pre_keys_view() == Map::<Seq<u8>, Seq<u8>>::empty()
                    &&& s.signed_pre_keys_view() == Map::<Seq<u8>, Seq<u8>>::empty()
                    &&& s.kyber_pre_keys_view() == Map::<Seq<u8>, Seq<u8>>::empty()
                    &&& s.identities_view() == Map::<Seq<u8>, Seq<u8>>::empty()
                    &&& s.credentials_view() == Map::<Seq<u8>, Seq<u8>>::empty()
                },
                Err(e) => e is Storage,
            }),
    {
        let err = |e: sled::Error| Error::Storage(format!("{}", e));
        let db = sled::Config::new().temporary(true).open().map_err(err)?;
        Ok(
            StateStore {
                sessions: db.open_tree("sessions").map_err(err)?,
                pre_keys: db.open_tree("pre-keys").map_err(err)?,
                signed_pre_keys: db.open_tree("signed-pre-keys").map_err(err)?,
                kyber_pre_keys: db.open_tree("kyber-pre-keys").map_err(err)?,
                identities: db.open_tree("identities").map_err(err)?,
                credentials: db.open_tree("credentials").map_err(err)?,
            },
        )
    }

    /// Open the durable store under a data directory.
    pub fn new(data_dir: &str) -> (r: Result<StateStore, Error>)
        ensures
            r matches Err(e) ==> e is Storage,
    {
        Self::open_at(data_dir)
    }

    /// Open a throwaway store whose collections start empty.
    pub fn new_temporary() -> (r: Result<StateStore, Error>)
        ensures
            r matches Ok(s) ==> {
                &&& s.sessions_view() == Map::<Seq<u8>, Seq<u8>>::empty()
                &&& s.pre_keys_view() == Map::<Seq<u8>, Seq<u8>>::empty()
                &&& s.signed_pre_keys_view() == Map::<Seq<u8>, Seq<u8>>::empty()
                &&& s.kyber_pre_keys_view() == Map::<Seq<u8>, Seq<u8>>::empty()
                &&& s.identities_view() == Map::<Seq<u8>, Seq<u8>>::empty()
                &&& s.credentials_view() == Map::<Seq<u8>, Seq<u8>>::empty()
            },
            r matches Err(e) ==> e is Storage,
    {
        Self::open_scratch()
    }

    /// Load the session stored for an address, if any.
    pub fn load_session(&self, address: &ProtocolAddress) -> (r: Result<
        Option<SessionRecord>,
        Error,
    >)
        ensures
            (match r {
                Ok(Some(rec)) => {
                    &&& self.sessions_view().contains_key(
                        spec_address_key(address.name@, address.device_id),
                    )
                    &&& spec_parse_session(
                        self.sessions_view()[spec_address_key(address.name@, address.device_id)],
                    ) == Some(rec@)
                },
                Ok(None) => !self.sessions_view().contains_key(
                    spec_address_key(address.name@, address.device_id),
                ),
                Err(e) => e is Storage || e is CorruptRecord,
            }),
    {
        let key = ProtocolAddressBytes::from_address(address);
        match kv_get(&self.sessions, key.bytes().as_slice()) {
            Ok(Some(value)) => match SessionRecord::deserialize(&value) {
                Some(rec) => Ok(Some(rec)),
                None => Err(Error::CorruptRecord("session record".to_string())),
            },
            Ok(None) => Ok(None),
            Err(e) => Err(e),
        }
    }

    /// Store (or overwrite) the session for an address.
    pub fn store_session(&mut self, address: &ProtocolAddress, record: &SessionRecord) -> (r:
        Result<(), Error>)
        ensures
            r is Ok ==> final(self).sessions_view() == old(self).sessions_view().insert(
                spec_address_key(address.name@, address.device_id),
                spec_ser_session(record@),
            ),
            r matches Err(e) ==> e is Storage,
            non_session_views_unchanged(*old(self), *final(self)),
    {
        let key = ProtocolAddressBytes::from_address(address);
        let value = record.serialize();
        match kv_insert(&mut self.sessions, key.bytes().as_slice(), value.as_slice()) {
            Ok(()) => Ok(()),
            Err(e) => Err(e),
        }
    }

    /// Load every session whose storage key starts with the given identifier
    /// bytes: exactly the devices known for that user, when no other stored
    /// identifier extends this one.
    #[verifier::loop_isolation(false)]
    pub fn load_sessions_by_prefix(&self, prefix: &Vec<u8>) -> (r: Result<
        Vec<(ProtocolAddress, SessionRecord)>,
        Error,
    >)
        ensures
            (match r {
                Ok(pairs) => {
                    &&& (forall|i: int|
                        0 <= i < pairs@.len() ==> {
                            let k = spec_address_key(
                                (#[trigger] pairs@[i]).0.name@,
                                pairs@[i].0.device_id,
                            );
                            &&& self.sessions_view().contains_key(k)
                            &&& spec_parse_session(self.sessions_view()[k]) == Some(pairs@[i].1@)
                            &&& prefix@.is_prefix_of(k)
                        })
                    &&& (forall|k: Seq<u8>|
                        #[trigger] self.sessions_view().contains_key(k) && prefix@.is_prefix_of(k)
                            && k.len() >= DEVICE_ID_SIZE ==> exists|i: int|
                            0 <= i < pairs@.len() && #[trigger] spec_address_key(
                                pairs@[i].0.name@,
                                pairs@[i].0.device_id,
                            ) == k)
                    &&& (forall|i: int, j: int|
                        0 <= i < pairs@.len() && 0 <= j < pairs@.len() && i != j
                            ==> spec_address_key(
                            (#[trigger] pairs@[i]).0.name@,
                            pairs@[i].0.device_id,
                        ) != spec_address_key((#[trigger] pairs@[j]).0.name@, pairs@[j].0.device_id))
                },
                Err(e) => match e {
                    Error::Storage(_) => true,
                    Error::CorruptRecord(_) => exists|k: Seq<u8>| {
                        &&& #[trigger] self.sessions_view().contains_key(k)
                        &&& prefix@.is_prefix_of(k)
                        &&& (k.len() < DEVICE_ID_SIZE || spec_parse_session(
                            self.sessions_view()[k],
                        ) is None)
                    },
                    _ => false,
                },
            }),
    {
        let raw = match kv_scan_prefix(&self.sessions, prefix.as_slice()) {
            Ok(raw) => raw,
            Err(e) => {
                return Err(e);
            },
        };
        let mut out: Vec<(ProtocolAddress, SessionRecord)> = Vec::new();
        let mut idx: usize = 0;
        while idx < raw.len()
            invariant
                idx <= raw@.len(),
                out@.len() == idx,
                forall|j: int|
                    0 <= j < idx ==> {
                        &&& spec_address_key((#[trigger] out@[j]).0.name@, out@[j].0.device_id)
                            == raw@[j].0@
                        &&& spec_parse_session(self.sessions_view()[raw@[j].0@]) == Some(
                            out@[j].1@,
                        )
                    },
            decreases raw@.len() - idx,
        {
            let key_len = raw[idx].0.len();
            if key_len < DEVICE_ID_SIZE {
                proof {
                    assert(self.sessions_view().contains_key(raw@[idx as int].0@)
                        && prefix@.is_prefix_of(raw@[idx as int].0@));
                }
                return Err(Error::CorruptRecord("session key".to_string()));
            }
            let abytes = ProtocolAddressBytes::new(slice_to_vec(raw[idx].0.as_slice()));
            let addr = abytes.to_address();
            proof {
                lemma_key_reassemble(raw@[idx as int].0@);
            }
            match SessionRecord::deserialize(&raw[idx].1) {
                Some(rec) => out.push((addr, rec)),
                None => {
                    proof {
                        assert(self.sessions_view().contains_key(raw@[idx as int].0@)
                            && prefix@.is_prefix_of(raw@[idx as int].0@)
                            && spec_parse_session(self.sessions_view()[raw@[idx as int].0@])
                            is None);
                    }
                    return Err(Error::CorruptRecord("session record".to_string()));
                },
            }
            idx = idx + 1;
        }
        proof {
            assert forall|k: Seq<u8>|
                #[trigger] self.sessions_view().contains_key(k) && prefix@.is_prefix_of(k)
                    && k.len() >= DEVICE_ID_SIZE implies exists|i: int|
                0 <= i < out@.len() && #[trigger] spec_address_key(
                    out@[i].0.name@,
                    out@[i].0.device_id,
                ) == k by {
                let i = choose|i: int| 0 <= i < raw@.len() && #[trigger] raw@[i].0@ == k;
                assert(spec_address_key(out@[i].0.name@, out@[i].0.device_id) == k);
            }
        }
        Ok(out)
    }
}

/// How a `save_identity` call reports what it found: no prior record, the
/// byte-identical key, or a different key that was overwritten.
#[derive(Clone, Copy, Debug, PartialEq, Eq, Structural)]
pub enum SaveIdentityOutcome {
    New,
    Unchanged,
    Overwritten,
}

/// The outcome `save_identity` owes for a given prior state of the identity
/// collection.
pub open spec fn spec_save_outcome(
    m: Map<Seq<u8>, Seq<u8>>,
    key: Seq<u8>,
    value: Seq<u8>,
) -> SaveIdentityOutcome {
    if !m.contains_key(key) {
        SaveIdentityOutcome::New
    } else if m[key] == value {
        SaveIdentityOutcome::Unchanged
    } else {
        SaveIdentityOutcome::Overwritten
    }
}

/// Saving an identity key is idempotent: once a key is recorded for an
/// address, recording the same key again reports `Unchanged` and never
/// alters the stored bytes.
pub proof fn lemma_idempotent_identity_save(
    m: Map<Seq<u8>, Seq<u8>>,
    key: Seq<u8>,
    value: Seq<u8>,
)
    ensures
        spec_save_outcome(m.insert(key, value), key, value) == SaveIdentityOutcome::Unchanged,
        m.insert(key, value).insert(key, value) == m.insert(key, value),
{
    assert(m.insert(key, value).insert(key, value) =~= m.insert(key, value));
}

impl StateStore {
    /// The last identity key seen for an address, if any.
    pub fn get_identity(&self, address: &ProtocolAddress) -> (r: Result<Option<Vec<u8>>, Error>)
        ensures
            (match r {
                Ok(Some(v)) => {
                    &&& self.identities_view().contains_key(
                        spec_address_key(address.name@, address.device_id),
                    )
                    &&& self.identities_view()[spec_address_key(address.name@, address.device_id)]
                        == v@
                },
                Ok(None) => !self.identities_view().contains_key(
                    spec_address_key(address.name@, address.device_id),
                ),
                Err(e) => e is Storage,
            }),
    {
        let key = ProtocolAddressBytes::from_address(address);
        kv_get(&self.identities, key.bytes().as_slice())
    }

    /// Trust on first use: an address with no recorded key is trusted with
    /// any key; a recorded address is trusted exactly with the recorded key.
    /// Never mutates the store.
    pub fn is_trusted_identity(&self, address: &ProtocolAddress, identity: &Vec<u8>) -> (r: Result<
        bool,
        Error,
    >)
        ensures
            (match r {
                Ok(trusted) => trusted == {
                    ||| !self.identities_view().contains_key(
                        spec_address_key(address.name@, address.device_id),
                    )
                    ||| self.identities_view()[spec_address_key(address.name@, address.device_id)]
                        == identity@
                },
                Err(e) => e is Storage,
            }),
    {
        match self.get_identity(address) {
            Ok(None) => Ok(true),
            Ok(Some(stored)) => {
                let same = stored == *identity;
                proof {
                    if same {
                        assert(stored@ =~= identity@);
                    }
                }
                Ok(same)
            },
            Err(e) => Err(e),
        }
    }

    /// Record the identity key for an address, reporting whether it was new,
    /// unchanged, or an overwrite of a different key. The key is bound in
    /// all three cases.
    pub fn save_identity(&mut self, address: &ProtocolAddress, identity: &Vec<u8>) -> (r: Result<
        SaveIdentityOutcome,
        Error,
    >)
        ensures
            (match r {
                Ok(outcome) => {
                    &&& final(self).identities_view() == old(self).identities_view().insert(
                        spec_address_key(address.name@, address.device_id),
                        identity@,
                    )
                    &&& outcome == spec_save_outcome(
                        old(self).identities_view(),
                        spec_address_key(address.name@, address.device_id),
                        identity@,
                    )
                },
                Err(e) => e is Storage,
            }),
            non_identity_views_unchanged(*old(self), *final(self)),
    {
        let key = ProtocolAddressBytes::from_address(address);
        let current = kv_get(&self.identities, key.bytes().as_slice())?;
        match current {
            None => {
                kv_insert(&mut self.identities, key.bytes().as_slice(), identity.as_slice())?;
                Ok(SaveIdentityOutcome::New)
            },
            Some(stored) => {
                let same = stored == *identity;
                if same {
                    proof {
                        assert(stored@ =~= identity@);
                        assert(old(self).identities_view().insert(
                            spec_address_key(address.name@, address.device_id),
                            identity@,
                        ) =~= old(self).identities_view());
                    }
                    Ok(SaveIdentityOutcome::Unchanged)
                } else {
                    kv_insert(&mut self.identities, key.bytes().as_slice(), identity.as_slice())?;
                    proof {
                        // the executable comparison agrees with value equality
                        if stored@ == identity@ {
                            assert(stored@.len() == identity@.len());
                            assert(same);
                        }
                    }
                    Ok(SaveIdentityOutcome::Overwritten)
                }
            },
        }
    }

    /// The one-time pre-key stored under an id; asking for an absent id is
    /// its own error, distinct from a storage fault.
    pub fn get_pre_key(&self, id: u32) -> (r: Result<PreKeyRecord, Error>)
        ensures
            (match r {
                Ok(rec) => {
                    &&& self.pre_keys_view().contains_key(spec_u32_to_le_bytes(id))
                    &&& spec_parse_pre_key(self.pre_keys_view()[spec_u32_to_le_bytes(id)]) == Some(
                        rec@,
                    )
                },
                Err(e) => match e {
                    Error::UnknownPreKey => !self.pre_keys_view().contains_key(
                        spec_u32_to_le_bytes(id),
                    ),
                    Error::CorruptRecord(_) => self.pre_keys_view().contains_key(
                        spec_u32_to_le_bytes(id),
                    ) && spec_parse_pre_key(self.pre_keys_view()[spec_u32_to_le_bytes(id)])
                        is None,
                    Error::Storage(_) => true,
                    _ => false,
                },
            }),
    {
        let key = u32_to_le_bytes(id);
        match kv_get(&self.pre_keys, key.as_slice())? {
            Some(value) => match PreKeyRecord::deserialize(&value) {
                Some(rec) => Ok(rec),
                None => Err(Error::CorruptRecord("pre-key record".to_string())),
            },
            None => Err(Error::UnknownPreKey),
        }
    }

    /// Store (or overwrite) the pre-key under its id.
    pub fn save_pre_key(&mut self, id: u32, record: &PreKeyRecord) -> (r: Result<(), Error>)
        requires
            key_pair_fits(record@.key_pair),
        ensures
            r is Ok ==> final(self).pre_keys_view() == old(self).pre_keys_view().insert(
                spec_u32_to_le_bytes(id),
                spec_ser_pre_key(record@),
            ),
            r matches Err(e) ==> e is Storage,
            non_pre_key_views_unchanged(*old(self), *final(self)),
    {
        let key = u32_to_le_bytes(id);
        let value = record.serialize();
        kv_insert(&mut self.pre_keys, key.as_slice(), value.as_slice())
    }

    /// Delete the pre-key under an id; deleting an absent id is a no-op.
    pub fn remove_pre_key(&mut self, id: u32) -> (r: Result<(), Error>)
        ensures
            r is Ok ==> final(self).pre_keys_view() == old(self).pre_keys_view().remove(
                spec_u32_to_le_bytes(id),
            ),
            r matches Err(e) ==> e is Storage,
            non_pre_key_views_unchanged(*old(self), *final(self)),
    {
        let key = u32_to_le_bytes(id);
        kv_remove(&mut self.pre_keys, key.as_slice())
    }

    /// The signed pre-key stored under an id.
    pub fn get_signed_pre_key(&self, id: u32) -> (r: Result<SignedPreKeyRecord, Error>)
        ensures
            (match r {
                Ok(rec) => {
                    &&& self.signed_pre_keys_view().contains_key(spec_u32_to_le_bytes(id))
                    &&& spec_parse_signed_pre_key(
                        self.signed_pre_keys_view()[spec_u32_to_le_bytes(id)],
                    ) == Some(rec@)
                },
                Err(e) => match e {
                    Error::UnknownSignedPreKey => !self.signed_pre_keys_view().contains_key(
                        spec_u32_to_le_bytes(id),
                    ),
                    Error::CorruptRecord(_) => self.signed_pre_keys_view().contains_key(
                        spec_u32_to_le_bytes(id),
                    ) && spec_parse_signed_pre_key(
                        self.signed_pre_keys_view()[spec_u32_to_le_bytes(id)],
                    ) is None,
                    Error::Storage(_) => true,
                    _ => false,
                },
            }),
    {
        let key = u32_to_le_bytes(id);
        match kv_get(&self.signed_pre_keys, key.as_slice())? {
            Some(value) => match SignedPreKeyRecord::deserialize(&value) {
                Some(rec) => Ok(rec),
                None => Err(Error::CorruptRecord("signed pre-key record".to_string())),
            },
            None => Err(Error::UnknownSignedPreKey),
        }
    }

    /// Store (or overwrite) the signed pre-key under its id: a single slot,
    /// replaced rather than versioned on re-registration.
    pub fn save_signed_pre_key(&mut self, id: u32, record: &SignedPreKeyRecord) -> (r: Result<
        (),
        Error,
    >)
        requires
            key_pair_fits(record@.key_pair),
            block_fits(record@.signature),
        ensures
            r is Ok ==> final(self).signed_pre_keys_view() == old(
                self,
            ).signed_pre_keys_view().insert(
                spec_u32_to_le_bytes(id),
                spec_ser_signed_pre_key(record@),
            ),
            r matches Err(e) ==> e is Storage,
            non_signed_pre_key_views_unchanged(*old(self), *final(self)),
    {
        let key = u32_to_le_bytes(id);
        let value = record.serialize();
        kv_insert(&mut self.signed_pre_keys, key.as_slice(), value.as_slice())
    }

    /// The post-quantum pre-key stored under an id.
    pub fn get_kyber_pre_key(&self, id: u32) -> (r: Result<KyberPreKeyRecord, Error>)
        ensures
            (match r {
                Ok(rec) => {
                    &&& self.kyber_pre_keys_view().contains_key(spec_u32_to_le_bytes(id))
                    &&& spec_parse_kyber(self.kyber_pre_keys_view()[spec_u32_to_le_bytes(id)])
                        == Some(rec@)
                },
                Err(e) => match e {
                    Error::UnknownPreKey => !self.kyber_pre_keys_view().contains_key(
                        spec_u32_to_le_bytes(id),
                    ),
                    Error::CorruptRecord(_) => self.kyber_pre_keys_view().contains_key(
                        spec_u32_to_le_bytes(id),
                    ) && spec_parse_kyber(self.kyber_pre_keys_view()[spec_u32_to_le_bytes(id)])
                        is None,
                    Error::Storage(_) => true,
                    _ => false,
                },
            }),
    {
        let key = u32_to_le_bytes(id);
        match kv_get(&self.kyber_pre_keys, key.as_slice())? {
            Some(value) => match KyberPreKeyRecord::deserialize(&value) {
                Some(rec) => Ok(rec),
                None => Err(Error::CorruptRecord("post-quantum pre-key record".to_string())),
            },
            None => Err(Error::UnknownPreKey),
        }
    }

    /// Store (or overwrite) the post-quantum pre-key under its id.
    pub fn save_kyber_pre_key(&mut self, id: u32, record: &KyberPreKeyRecord) -> (r: Result<
        (),
        Error,
    >)
        ensures
            r is Ok ==> final(self).kyber_pre_keys_view() == old(self).kyber_pre_keys_view().insert(
                spec_u32_to_le_bytes(id),
                spec_ser_kyber(record@),
            ),
            r matches Err(e) ==> e is Storage,
            non_kyber_views_unchanged(*old(self), *final(self)),
    {
        let key = u32_to_le_bytes(id);
        let value = record.serialize();
        kv_insert(&mut self.kyber_pre_keys, key.as_slice(), value.as_slice())
    }

    /// A used post-quantum pre-key is consumed: its slot is deleted.
    pub fn mark_kyber_pre_key_used(&mut self, id: u32) -> (r: Result<(), Error>)
        ensures
            r is Ok ==> final(self).kyber_pre_keys_view() == old(self).kyber_pre_keys_view().remove(
                spec_u32_to_le_bytes(id),
            ),
            r matches Err(e) ==> e is Storage,
            non_kyber_views_unchanged(*old(self), *final(self)),
    {
        let key = u32_to_le_bytes(id);
        kv_remove(&mut self.kyber_pre_keys, key.as_slice())
    }
}

/// The credential slot holding the account's identity key pair.
pub open spec fn identity_key_pair_slot() -> Seq<u8> {
    "identity_key_pair".spec_bytes()
}

/// The credential slot holding the account's registration id.
pub open spec fn registration_id_slot() -> Seq<u8> {
    "registration_id".spec_bytes()
}

/// The credential slot holding the account's own address.
pub open spec fn address_slot() -> Seq<u8> {
    "address".spec_bytes()
}

/// The credential slot holding the account's API secret.
pub open spec fn api_pass_slot() -> Seq<u8> {
    "api_pass".spec_bytes()
}

impl StateStore {
    /// Persist the credentials obtained at registration: identity key pair,
    /// registration id, own address, and API secret.
    pub fn register_new_account(
        &mut self,
        identity_key_pair: &KeyPairBytes,
        registration_id: u32,
        address: &ProtocolAddress,
        api_pass: &str,
    ) -> (r: Result<(), Error>)
        requires
            key_pair_fits(identity_key_pair@),
        ensures
            r is Ok ==> final(self).credentials_view() == old(self).credentials_view().insert(
                identity_key_pair_slot(),
                spec_ser_key_pair(identity_key_pair@),
            ).insert(registration_id_slot(), spec_u32_to_le_bytes(registration_id)).insert(
                address_slot(),
                spec_address_key(address.name@, address.device_id),
            ).insert(api_pass_slot(), api_pass.spec_bytes()),
            r matches Err(e) ==> e is Storage,
            non_credential_views_unchanged(*old(self), *final(self)),
    {
        let ikp_value = identity_key_pair.serialize();
        kv_insert(&mut self.credentials, "identity_key_pair".as_bytes(), ikp_value.as_slice())?;
        let rid_value = u32_to_le_bytes(registration_id);
        kv_insert(&mut self.credentials, "registration_id".as_bytes(), rid_value.as_slice())?;
        let addr_value = ProtocolAddressBytes::from_address(address);
        kv_insert(
            &mut self.credentials,
            "address".as_bytes(),
            addr_value.bytes().as_slice(),
        )?;
        kv_insert(&mut self.credentials, "api_pass".as_bytes(), api_pass.as_bytes())?;
        Ok(())
    }

    /// The account's own address; absent means the store was never
    /// initialized, which is its own error.
    pub fn get_address(&self) -> (r: Result<ProtocolAddress, Error>)
        ensures
            (match r {
                Ok(a) => {
                    &&& self.credentials_view().contains_key(address_slot())
                    &&& self.credentials_view()[address_slot()].len() >= DEVICE_ID_SIZE
                    &&& spec_address_key(a.name@, a.device_id)
                        == self.credentials_view()[address_slot()]
                },
                Err(e) => match e {
                    Error::Uninitialized => !self.credentials_view().contains_key(address_slot()),
                    Error::CorruptRecord(_) => self.credentials_view().contains_key(address_slot())
                        && self.credentials_view()[address_slot()].len() < DEVICE_ID_SIZE,
                    Error::Storage(_) => true,
                    _ => false,
                },
            }),
    {
        match kv_get(&self.credentials, "address".as_bytes())? {
            Some(value) => {
                if value.len() < DEVICE_ID_SIZE {
                    return Err(Error::CorruptRecord("stored address".to_string()));
                }
                let abytes = ProtocolAddressBytes::new(value);
                let addr = abytes.to_address();
                proof {
                    lemma_key_reassemble(abytes@);
                }
                Ok(addr)
            },
            None => Err(Error::Uninitialized),
        }
    }

    /// The account's API user name: the identifier bytes, a dot, and the
    /// decimal device index.
    pub fn api_username(&self) -> (r: Result<Vec<u8>, Error>)
        ensures
            (match r {
                Ok(u) => {
                    &&& self.credentials_view().contains_key(address_slot())
                    &&& self.credentials_view()[address_slot()].len() >= DEVICE_ID_SIZE
                    &&& u@ == spec_key_name(self.credentials_view()[address_slot()]) + seq![46u8]
                        + spec_decimal(
                        spec_key_device_id(self.credentials_view()[address_slot()]) as nat,
                    )
                },
                Err(e) => e is Storage || e is CorruptRecord || e is Uninitialized,
            }),
    {
        let addr = self.get_address()?;
        let ghost n = addr.name@;
        let ghost d = addr.device_id;
        let mut out = addr.name;
        out.push(46u8);
        let mut digits = u32_decimal(addr.device_id);
        out.append(&mut digits);
        proof {
            lemma_address_key_round_trip(n, d);
            let val = self.credentials_view()[address_slot()];
            assert(out@ =~= spec_key_name(val) + seq![46u8] + spec_decimal(
                spec_key_device_id(val) as nat,
            ));
        }
        Ok(out)
    }

    /// The account's API secret; absent means the store was never
    /// initialized.
    pub fn api_password(&self) -> (r: Result<Vec<u8>, Error>)
        ensures
            (match r {
                Ok(p) => {
                    &&& self.credentials_view().contains_key(api_pass_slot())
                    &&& self.credentials_view()[api_pass_slot()] == p@
                },
                Err(e) => match e {
                    Error::Uninitialized => !self.credentials_view().contains_key(api_pass_slot()),
                    Error::Storage(_) => true,
                    _ => false,
                },
            }),
    {
        match kv_get(&self.credentials, "api_pass".as_bytes())? {
            Some(value) => Ok(value),
            None => Err(Error::Uninitialized),
        }
    }

    /// The account's identity key pair; absent means the store was never
    /// initialized.
    pub fn get_identity_key_pair(&self) -> (r: Result<KeyPairBytes, Error>)
        ensures
            (match r {
                Ok(k) => {
                    &&& self.credentials_view().contains_key(identity_key_pair_slot())
                    &&& spec_parse_key_pair(self.credentials_view()[identity_key_pair_slot()])
                        == Some(k@)
                },
                Err(e) => match e {
                    Error::Uninitialized => !self.credentials_view().contains_key(
                        identity_key_pair_slot(),
                    ),
                    Error::CorruptRecord(_) => self.credentials_view().contains_key(
                        identity_key_pair_slot(),
                    ) && spec_parse_key_pair(self.credentials_view()[identity_key_pair_slot()])
                        is None,
                    Error::Storage(_) => true,
                    _ => false,
                },
            }),
    {
        match kv_get(&self.credentials, "identity_key_pair".as_bytes())? {
            Some(value) => match KeyPairBytes::deserialize(&value) {
                Some(k) => Ok(k),
                None => Err(Error::CorruptRecord("identity key pair".to_string())),
            },
            None => Err(Error::Uninitialized),
        }
    }

    /// The account's registration id; absent means the store was never
    /// initialized.
    pub fn get_local_registration_id(&self) -> (r: Result<u32, Error>)
        ensures
            (match r {
                Ok(x) => {
                    &&& self.credentials_view().contains_key(registration_id_slot())
                    &&& self.credentials_view()[registration_id_slot()].len() == 4
                    &&& x == spec_u32_from_le_bytes(self.credentials_view()[registration_id_slot()])
                },
                Err(e) => match e {
                    Error::Uninitialized => !self.credentials_view().contains_key(
                        registration_id_slot(),
                    ),
                    Error::CorruptRecord(_) => self.credentials_view().contains_key(
                        registration_id_slot(),
                    ) && self.credentials_view()[registration_id_slot()].len() != 4,
                    Error::Storage(_) => true,
                    _ => false,
                },
            }),
    {
        match kv_get(&self.credentials, "registration_id".as_bytes())? {
            Some(value) => {
                if value.len() == 4 {
                    Ok(u32_from_le_bytes(value.as_slice()))
                } else {
                    Err(Error::CorruptRecord("registration id".to_string()))
                }
            },
            None => Err(Error::Uninitialized),
        }
    }
}

} // verus!
