use vstd::prelude::*;
use vstd::bytes::{lemma_auto_spec_u32_to_from_le_bytes, lemma_auto_spec_u64_to_from_le_bytes, spec_u32_from_le_bytes, spec_u32_to_le_bytes, spec_u64_from_le_bytes, spec_u64_to_le_bytes, u32_from_le_bytes, u32_to_le_bytes, u64_from_le_bytes, u64_to_le_bytes};
use vstd::slice::{slice_subrange, slice_to_vec};
use crate::keys::{KeyPairBytes, KeyPairV, KyberPreKeyRecord, KyberPreKeyRecordV, PreKeyRecord, PreKeyRecordV, SessionRecord, SessionRecordV, SignedPreKeyRecord, SignedPreKeyRecordV};

verus! {

// The durable byte layout of each record kind. Variable-length fields carry
// a four-byte little-endian length prefix; a field that runs to the end of
// the record is stored bare.

/// A length-prefixed block.
pub open spec fn spec_ser_block(b: Seq<u8>) -> Seq<u8>
    recommends
        b.len() <= u32::MAX,
{
    spec_u32_to_le_bytes(b.len() as u32) + b
}

/// Whether a block is short enough for its length prefix.
pub open spec fn block_fits(b: Seq<u8>) -> bool {
    b.len() <= u32::MAX
}

pub open spec fn spec_ser_key_pair(k: KeyPairV) -> Seq<u8> {
    spec_ser_block(k.public_key) + spec_ser_block(k.private_key)
}

pub open spec fn key_pair_fits(k: KeyPairV) -> bool {
    block_fits(k.public_key) && block_fits(k.private_key)
}

pub open spec fn spec_ser_session(s: SessionRecordV) -> Seq<u8> {
    spec_u32_to_le_bytes(s.registration_id) + seq![if s.archived { 1u8 } else { 0u8 }] + s.state
}

pub open spec fn spec_ser_pre_key(p: PreKeyRecordV) -> Seq<u8> {
    spec_u32_to_le_bytes(p.id) + spec_ser_key_pair(p.key_pair)
}

pub open spec fn spec_ser_signed_pre_key(p: SignedPreKeyRecordV) -> Seq<u8> {
    spec_u32_to_le_bytes(p.id) + spec_u64_to_le_bytes(p.timestamp) + spec_ser_key_pair(p.key_pair)
        + spec_ser_block(p.signature)
}

pub open spec fn spec_ser_kyber(p: KyberPreKeyRecordV) -> Seq<u8> {
    spec_u32_to_le_bytes(p.id) + p.state
}

// Parsing, at the specification level.

pub open spec fn spec_parse_u32(data: Seq<u8>, pos: int) -> Option<(u32, int)> {
    if 0 <= pos && pos + 4 <= data.len() {
        Some((spec_u32_from_le_bytes(data.subrange(pos, pos + 4)), pos + 4))
    } else {
        None
    }
}

pub open spec fn spec_parse_u64(data: Seq<u8>, pos: int) -> Option<(u64, int)> {
    if 0 <= pos && pos + 8 <= data.len() {
        Some((spec_u64_from_le_bytes(data.subrange(pos, pos + 8)), pos + 8))
    } else {
        None
    }
}

pub open spec fn spec_parse_block(data: Seq<u8>, pos: int) -> Option<(Seq<u8>, int)> {
    match spec_parse_u32(data, pos) {
        Some((n, p)) => if p + n <= data.len() {
            Some((data.subrange(p, p + n), p + n))
        } else {
            None
        },
        None => None,
    }
}

pub open spec fn spec_parse_key_pair_at(data: Seq<u8>, pos: int) -> Option<(KeyPairV, int)> {
    match spec_parse_block(data, pos) {
        Some((public_key, p1)) => match spec_parse_block(data, p1) {
            Some((private_key, p2)) => Some((KeyPairV { public_key, private_key }, p2)),
            None => None,
        },
        None => None,
    }
}

pub open spec fn spec_parse_key_pair(data: Seq<u8>) -> Option<KeyPairV> {
    match spec_parse_key_pair_at(data, 0) {
        Some((k, p)) => if p == data.len() {
            Some(k)
        } else {
            None
        },
        None => None,
    }
}

pub open spec fn spec_parse_session(data: Seq<u8>) -> Option<SessionRecordV> {
    if data.len() >= 5 && (data[4] == 0 || data[4] == 1) {
        Some(
            SessionRecordV {
                registration_id: spec_u32_from_le_bytes(data.subrange(0, 4)),
                archived: data[4] == 1,
                state: data.skip(5),
            },
        )
    } else {
        None
    }
}

pub open spec fn spec_parse_pre_key(data: Seq<u8>) -> Option<PreKeyRecordV> {
    match spec_parse_u32(data, 0) {
        Some((id, p0)) => match spec_parse_key_pair_at(data, p0) {
            Some((key_pair, p1)) => if p1 == data.len() {
                Some(PreKeyRecordV { id, key_pair })
            } else {
                None
            },
            None => None,
        },
        None => None,
    }
}

pub open spec fn spec_parse_signed_pre_key(data: Seq<u8>) -> Option<SignedPreKeyRecordV> {
    match spec_parse_u32(data, 0) {
        Some((id, p0)) => match spec_parse_u64(data, p0) {
            Some((timestamp, p1)) => match spec_parse_key_pair_at(data, p1) {
                Some((key_pair, p2)) => match spec_parse_block(data, p2) {
                    Some((signature, p3)) => if p3 == data.len() {
                        Some(SignedPreKeyRecordV { id, timestamp, key_pair, signature })
                    } else {
                        None
                    },
                    None => None,
                },
                None => None,
            },
            None => None,
        },
        None => None,
    }
}

pub open spec fn spec_parse_kyber(data: Seq<u8>) -> Option<KyberPreKeyRecordV> {
    if data.len() >= 4 {
        Some(
            KyberPreKeyRecordV {
                id: spec_u32_from_le_bytes(data.subrange(0, 4)),
                state: data.skip(4),
            },
        )
    } else {
        None
    }
}

// Round trips: parsing what was serialized gives the record back.

proof fn lemma_parse_u32_at(data: Seq<u8>, pos: int, x: u32)
    requires
        0 <= pos,
        pos + 4 <= data.len(),
        data.subrange(pos, pos + 4) == spec_u32_to_le_bytes(x),
    ensures
        spec_parse_u32(data, pos) == Some((x, pos + 4)),
{
    lemma_auto_spec_u32_to_from_le_bytes();
    assert(spec_u32_to_le_bytes(x).len() == 4);
}

proof fn lemma_parse_u64_at(data: Seq<u8>, pos: int, x: u64)
    requires
        0 <= pos,
        pos + 8 <= data.len(),
        data.subrange(pos, pos + 8) == spec_u64_to_le_bytes(x),
    ensures
        spec_parse_u64(data, pos) == Some((x, pos + 8)),
{
    lemma_auto_spec_u64_to_from_le_bytes();
    assert(spec_u64_to_le_bytes(x).len() == 8);
}

proof fn lemma_parse_block_at(data: Seq<u8>, pos: int, b: Seq<u8>)
    requires
        block_fits(b),
        0 <= pos,
        pos + 4 + b.len() <= data.len(),
        data.subrange(pos, pos + 4 + b.len()) == spec_ser_block(b),
    ensures
        spec_parse_block(data, pos) == Some((b, pos + 4 + b.len())),
{
    lemma_auto_spec_u32_to_from_le_bytes();
    let whole = data.subrange(pos, pos + 4 + b.len());
    assert(data.subrange(pos, pos + 4) =~= whole.subrange(0, 4));
    assert(whole.subrange(0, 4) =~= spec_u32_to_le_bytes(b.len() as u32));
    lemma_parse_u32_at(data, pos, b.len() as u32);
    assert(data.subrange(pos + 4, pos + 4 + b.len()) =~= whole.subrange(4, 4 + b.len() as int));
    assert(whole.subrange(4, 4 + b.len() as int) =~= b);
}

proof fn lemma_parse_key_pair_at(data: Seq<u8>, pos: int, k: KeyPairV)
    requires
        key_pair_fits(k),
        0 <= pos,
        pos + spec_ser_key_pair(k).len() <= data.len(),
        data.subrange(pos, pos + spec_ser_key_pair(k).len()) == spec_ser_key_pair(k),
    ensures
        spec_parse_key_pair_at(data, pos) == Some((k, pos + spec_ser_key_pair(k).len())),
{
    lemma_auto_spec_u32_to_from_le_bytes();
    let whole = spec_ser_key_pair(k);
    let n1 = 4 + k.public_key.len() as int;
    let n2 = 4 + k.private_key.len() as int;
    assert(whole.len() == n1 + n2);
    assert(data.subrange(pos, pos + n1) =~= whole.subrange(0, n1));
    assert(whole.subrange(0, n1) =~= spec_ser_block(k.public_key));
    lemma_parse_block_at(data, pos, k.public_key);
    assert(data.subrange(pos + n1, pos + n1 + n2) =~= whole.subrange(n1, n1 + n2));
    assert(whole.subrange(n1, n1 + n2) =~= spec_ser_block(k.private_key));
    lemma_parse_block_at(data, pos + n1, k.private_key);
}

/// A key pair survives the store encoding byte-identically.
pub proof fn lemma_key_pair_round_trip(k: KeyPairV)
    requires
        key_pair_fits(k),
    ensures
        spec_parse_key_pair(spec_ser_key_pair(k)) == Some(k),
{
    let data = spec_ser_key_pair(k);
    assert(data.subrange(0, data.len() as int) =~= data);
    lemma_parse_key_pair_at(data, 0, k);
}

/// A session record survives the store encoding byte-identically.
pub proof fn lemma_session_round_trip(s: SessionRecordV)
    ensures
        spec_parse_session(spec_ser_session(s)) == Some(s),
{
    lemma_auto_spec_u32_to_from_le_bytes();
    let data = spec_ser_session(s);
    let flag: u8 = if s.archived { 1u8 } else { 0u8 };
    assert(data.len() == 5 + s.state.len());
    assert(data[4] == flag);
    assert(data.subrange(0, 4) =~= spec_u32_to_le_bytes(s.registration_id));
    assert(data.skip(5) =~= s.state);
}

/// A pre-key record survives the store encoding byte-identically.
pub proof fn lemma_pre_key_round_trip(p: PreKeyRecordV)
    requires
        key_pair_fits(p.key_pair),
    ensures
        spec_parse_pre_key(spec_ser_pre_key(p)) == Some(p),
{
    lemma_auto_spec_u32_to_from_le_bytes();
    let data = spec_ser_pre_key(p);
    let kp = spec_ser_key_pair(p.key_pair);
    assert(data.subrange(0, 4) =~= spec_u32_to_le_bytes(p.id));
    lemma_parse_u32_at(data, 0, p.id);
    assert(data.subrange(4, 4 + kp.len() as int) =~= kp);
    lemma_parse_key_pair_at(data, 4, p.key_pair);
}

/// A signed pre-key record survives the store encoding byte-identically.
pub proof fn lemma_signed_pre_key_round_trip(p: SignedPreKeyRecordV)
    requires
        key_pair_fits(p.key_pair),
        block_fits(p.signature),
    ensures
        spec_parse_signed_pre_key(spec_ser_signed_pre_key(p)) == Some(p),
{
    lemma_auto_spec_u32_to_from_le_bytes();
    lemma_auto_spec_u64_to_from_le_bytes();
    let data = spec_ser_signed_pre_key(p);
    let kp = spec_ser_key_pair(p.key_pair);
    let sig = spec_ser_block(p.signature);
    assert(data.subrange(0, 4) =~= spec_u32_to_le_bytes(p.id));
    lemma_parse_u32_at(data, 0, p.id);
    assert(data.subrange(4, 12) =~= spec_u64_to_le_bytes(p.timestamp));
    lemma_parse_u64_at(data, 4, p.timestamp);
    assert(data.subrange(12, 12 + kp.len() as int) =~= kp);
    lemma_parse_key_pair_at(data, 12, p.key_pair);
    assert(data.subrange(12 + kp.len() as int, 12 + kp.len() + sig.len() as int) =~= sig);
    lemma_parse_block_at(data, 12 + kp.len() as int, p.signature);
}

/// A post-quantum pre-key record survives the store encoding byte-identically.
pub proof fn lemma_kyber_round_trip(p: KyberPreKeyRecordV)
    ensures
        spec_parse_kyber(spec_ser_kyber(p)) == Some(p),
{
    lemma_auto_spec_u32_to_from_le_bytes();
    let data = spec_ser_kyber(p);
    assert(data.subrange(0, 4) =~= spec_u32_to_le_bytes(p.id));
    assert(data.skip(4) =~= p.state);
}

// The executable encoders and decoders.

fn append_u32(out: &mut Vec<u8>, x: u32)
    ensures
        final(out)@ == old(out)@ + spec_u32_to_le_bytes(x),
{
    let mut tail = u32_to_le_bytes(x);
    out.append(&mut tail);
}

fn append_u64(out: &mut Vec<u8>, x: u64)
    ensures
        final(out)@ == old(out)@ + spec_u64_to_le_bytes(x),
{
    let mut tail = u64_to_le_bytes(x);
    out.append(&mut tail);
}

fn append_block(out: &mut Vec<u8>, b: &Vec<u8>)
    requires
        block_fits(b@),
    ensures
        final(out)@ == old(out)@ + spec_ser_block(b@),
{
    append_u32(out, b.len() as u32);
    out.extend_from_slice(b.as_slice());
    assert(out@ =~= old(out)@ + spec_ser_block(b@));
}

fn read_u32_at(data: &Vec<u8>, pos: usize) -> (r: Option<(u32, usize)>)
    requires
        pos <= data@.len(),
    ensures
        (match r {
            Some((x, p)) => spec_parse_u32(data@, pos as int) == Some((x, p as int)) && p
                <= data@.len(),
            None => spec_parse_u32(data@, pos as int) is None,
        }),
{
    if data.len() - pos >= 4 {
        let s: &[u8] = slice_subrange(data.as_slice(), pos, pos + 4);
        Some((u32_from_le_bytes(s), pos + 4))
    } else {
        None
    }
}

fn read_u64_at(data: &Vec<u8>, pos: usize) -> (r: Option<(u64, usize)>)
    requires
        pos <= data@.len(),
    ensures
        (match r {
            Some((x, p)) => spec_parse_u64(data@, pos as int) == Some((x, p as int)) && p
                <= data@.len(),
            None => spec_parse_u64(data@, pos as int) is None,
        }),
{
    if data.len() - pos >= 8 {
        let s: &[u8] = slice_subrange(data.as_slice(), pos, pos + 8);
        Some((u64_from_le_bytes(s), pos + 8))
    } else {
        None
    }
}

fn read_block_at(data: &Vec<u8>, pos: usize) -> (r: Option<(Vec<u8>, usize)>)
    requires
        pos <= data@.len(),
    ensures
        (match r {
            Some((b, p)) => spec_parse_block(data@, pos as int) == Some((b@, p as int)) && p
                <= data@.len(),
            None => spec_parse_block(data@, pos as int) is None,
        }),
{
    match read_u32_at(data, pos) {
        Some((n32, p)) => {
            let n = n32 as usize;
            if n <= data.len() - p {
                let s: &[u8] = slice_subrange(data.as_slice(), p, p + n);
                Some((slice_to_vec(s), p + n))
            } else {
                None
            }
        },
        None => None,
    }
}

fn read_key_pair_at(data: &Vec<u8>, pos: usize) -> (r: Option<(KeyPairBytes, usize)>)
    requires
        pos <= data@.len(),
    ensures
        (match r {
            Some((k, p)) => spec_parse_key_pair_at(data@, pos as int) == Some((k@, p as int)) && p
                <= data@.len(),
            None => spec_parse_key_pair_at(data@, pos as int) is None,
        }),
{
    match read_block_at(data, pos) {
        Some((public_key, p1)) => match read_block_at(data, p1) {
            Some((private_key, p2)) => Some((KeyPairBytes::new(public_key, private_key), p2)),
            None => None,
        },
        None => None,
    }
}

impl KeyPairBytes {
    /// The durable byte form of the key pair.
    pub fn serialize(&self) -> (r: Vec<u8>)
        requires
            key_pair_fits(self@),
        ensures
            r@ == spec_ser_key_pair(self@),
    {
        let mut out: Vec<u8> = Vec::new();
        append_block(&mut out, &self.public_key);
        append_block(&mut out, &self.private_key);
        out
    }

    /// Decode the durable byte form; `None` on malformed bytes.
    pub fn deserialize(data: &Vec<u8>) -> (r: Option<KeyPairBytes>)
        ensures
            (match r {
                Some(k) => spec_parse_key_pair(data@) == Some(k@),
                None => spec_parse_key_pair(data@) is None,
            }),
    {
        match read_key_pair_at(data, 0) {
            Some((k, p)) => if p == data.len() {
                Some(k)
            } else {
                None
            },
            None => None,
        }
    }
}

impl SessionRecord {
    /// The durable byte form of the session record.
    pub fn serialize(&self) -> (r: Vec<u8>)
        ensures
            r@ == spec_ser_session(self@),
    {
        let mut out: Vec<u8> = Vec::new();
        append_u32(&mut out, self.registration_id);
        out.push(if self.archived { 1u8 } else { 0u8 });
        out.extend_from_slice(self.state.as_slice());
        assert(out@ =~= spec_ser_session(self@));
        out
    }

    /// Decode the durable byte form; `None` on malformed bytes.
    pub fn deserialize(data: &Vec<u8>) -> (r: Option<SessionRecord>)
        ensures
            (match r {
                Some(rec) => spec_parse_session(data@) == Some(rec@),
                None => spec_parse_session(data@) is None,
            }),
    {
        if data.len() >= 5 {
            let flag: u8 = *data.get(4).unwrap();
            if flag == 0 || flag == 1 {
                let head: &[u8] = slice_subrange(data.as_slice(), 0, 4);
                let registration_id = u32_from_le_bytes(head);
                let state = slice_to_vec(slice_subrange(data.as_slice(), 5, data.len()));
                let rec = SessionRecord { registration_id, archived: flag == 1, state };
                assert(rec@.state =~= data@.skip(5));
                Some(rec)
            } else {
                None
            }
        } else {
            None
        }
    }
}

impl PreKeyRecord {
    /// The durable byte form of the pre-key record.
    pub fn serialize(&self) -> (r: Vec<u8>)
        requires
            key_pair_fits(self@.key_pair),
        ensures
            r@ == spec_ser_pre_key(self@),
    {
        let mut out: Vec<u8> = Vec::new();
        append_u32(&mut out, self.id);
        append_block(&mut out, &self.key_pair.public_key);
        append_block(&mut out, &self.key_pair.private_key);
        assert(out@ =~= spec_ser_pre_key(self@));
        out
    }

    /// Decode the durable byte form; `None` on malformed bytes.
    pub fn deserialize(data: &Vec<u8>) -> (r: Option<PreKeyRecord>)
        ensures
            (match r {
                Some(rec) => spec_parse_pre_key(data@) == Some(rec@),
                None => spec_parse_pre_key(data@) is None,
            }),
    {
        match read_u32_at(data, 0) {
            Some((id, p0)) => match read_key_pair_at(data, p0) {
                Some((key_pair, p1)) => if p1 == data.len() {
                    Some(PreKeyRecord { id, key_pair })
                } else {
                    None
                },
                None => None,
            },
            None => None,
        }
    }
}

impl SignedPreKeyRecord {
    /// The durable byte form of the signed pre-key record.
    pub fn serialize(&self) -> (r: Vec<u8>)
        requires
            key_pair_fits(self@.key_pair),
            block_fits(self@.signature),
        ensures
            r@ == spec_ser_signed_pre_key(self@),
    {
        let mut out: Vec<u8> = Vec::new();
        append_u32(&mut out, self.id);
        append_u64(&mut out, self.timestamp);
        append_block(&mut out, &self.key_pair.public_key);
        append_block(&mut out, &self.key_pair.private_key);
        append_block(&mut out, &self.signature);
        assert(out@ =~= spec_ser_signed_pre_key(self@));
        out
    }

    /// Decode the durable byte form; `None` on malformed bytes.
    pub fn deserialize(data: &Vec<u8>) -> (r: Option<SignedPreKeyRecord>)
        ensures
            (match r {
                Some(rec) => spec_parse_signed_pre_key(data@) == Some(rec@),
                None => spec_parse_signed_pre_key(data@) is None,
            }),
    {
        match read_u32_at(data, 0) {
            Some((id, p0)) => match read_u64_at(data, p0) {
                Some((timestamp, p1)) => match read_key_pair_at(data, p1) {
                    Some((key_pair, p2)) => match read_block_at(data, p2) {
                        Some((signature, p3)) => if p3 == data.len() {
                            Some(SignedPreKeyRecord { id, timestamp, key_pair, signature })
                        } else {
                            None
                        },
                        None => None,
                    },
                    None => None,
                },
                None => None,
            },
            None => None,
        }
    }
}

impl KyberPreKeyRecord {
    /// The durable byte form of the post-quantum pre-key record.
    pub fn serialize(&self) -> (r: Vec<u8>)
        ensures
            r@ == spec_ser_kyber(self@),
    {
        let mut out: Vec<u8> = Vec::new();
        append_u32(&mut out, self.id);
        out.extend_from_slice(self.state.as_slice());
        out
    }

    /// Decode the durable byte form; `None` on malformed bytes.
    pub fn deserialize(data: &Vec<u8>) -> (r: Option<KyberPreKeyRecord>)
        ensures
            (match r {
                Some(rec) => spec_parse_kyber(data@) == Some(rec@),
                None => spec_parse_kyber(data@) is None,
            }),
    {
        if data.len() >= 4 {
            let head: &[u8] = slice_subrange(data.as_slice(), 0, 4);
            let id = u32_from_le_bytes(head);
            let state = slice_to_vec(slice_subrange(data.as_slice(), 4, data.len()));
            let rec = KyberPreKeyRecord { id, state };
            assert(rec@.state =~= data@.skip(4));
            Some(rec)
        } else {
            None
        }
    }
}

} // verus!
