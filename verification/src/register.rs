use vstd::prelude::*;
use vstd::string::{StrSliceExecFns, StringExecFns, StringSliceAdditionalSpecFns};
use vstd::utf8::encode_utf8;
use crate::address::ProtocolAddress;
use crate::codec::{b64_encode, b64_of};
use crate::keys::KeyPairBytes;
use crate::random::{random_bytes, random_u32};

verus! {

/// Everything the registration flow persists: the account's address, API
/// secret, identity key pair, and registration id.
pub struct Credentials {
    pub address: ProtocolAddress,
    pub api_pass: String,
    pub identity_key_pair: KeyPairBytes,
    pub registration_id: u32,
}

/// The body of the device-registration call.
#[derive(Clone, Debug)]
pub struct DeviceRegistrationRequest {
    pub capabilities: Vec<(String, bool)>,
    pub fetches_messages: bool,
    pub name: String,
    pub registration_id: u32,
    pub supports_sms: bool,
    pub unidentified_access_key: Option<String>,
    pub unrestricted_unidentified_access: bool,
}

impl DeviceRegistrationRequest {
    /// A request announcing the fixed capability set, fetching messages,
    /// and carrying the device name and registration id.
    pub fn new(name: String, registration_id: u32) -> (r: Self)
        ensures
            r.capabilities@.len() == 7,
            (r.capabilities@[0].0@ == "gv2-3"@ && r.capabilities@[0].1),
            (r.capabilities@[1].0@ == "gv1-migration"@ && r.capabilities@[1].1),
            (r.capabilities@[2].0@ == "senderKey"@ && r.capabilities@[2].1),
            (r.capabilities@[3].0@ == "changeNumber"@ && r.capabilities@[3].1),
            (r.capabilities@[4].0@ == "announcementGroup"@ && r.capabilities@[4].1),
            (r.capabilities@[5].0@ == "giftBadges"@ && r.capabilities@[5].1),
            (r.capabilities@[6].0@ == "stories"@ && r.capabilities@[6].1),
            r.fetches_messages == true,
            r.name@ == name@,
            r.registration_id == registration_id,
            r.supports_sms == false,
            r.unidentified_access_key is None,
            r.unrestricted_unidentified_access == false,
    {
        let mut capabilities: Vec<(String, bool)> = Vec::new();
        capabilities.push((String::from_str("gv2-3"), true));
        capabilities.push((String::from_str("gv1-migration"), true));
        capabilities.push((String::from_str("senderKey"), true));
        capabilities.push((String::from_str("changeNumber"), true));
        capabilities.push((String::from_str("announcementGroup"), true));
        capabilities.push((String::from_str("giftBadges"), true));
        capabilities.push((String::from_str("stories"), true));
        DeviceRegistrationRequest {
            capabilities,
            fetches_messages: true,
            name,
            registration_id,
            supports_sms: false,
            unidentified_access_key: None,
            unrestricted_unidentified_access: false,
        }
    }
}

/// A fresh registration id, drawn from the secure randomness source and
/// bounded to fourteen bits.
pub fn generate_registration_id() -> (r: u32)
    ensures
        r < 0x4000,
{
    let raw = random_u32();
    let masked = raw & 0x00003fff;
    proof {
        assert(raw & 0x00003fff < 0x4000) by (bit_vector);
    }
    masked
}

/// A fresh API secret: sixteen random bytes in the unpadded wire encoding,
/// which renders as twenty-two characters.
pub fn make_api_pass() -> (r: String)
    ensures
        exists|b: Seq<u8>| b.len() == 16 && r@ == b64_of(b),
        r@.len() == 22,
{
    let secret = random_bytes(16);
    let encoded = b64_encode(&secret);
    proof {
        assert(secret@.len() == 16 && encoded@ == b64_of(secret@));
    }
    encoded
}

/// The credentials a successful registration reply yields: the account is
/// addressed by the reply's identifier, falling back to the provisioned
/// number, and by the reply's device index, falling back to the primary
/// device.
pub fn credentials_from_response(
    response_uuid: Option<String>,
    response_device_id: Option<u32>,
    number: &str,
    api_pass: String,
    identity_key_pair: KeyPairBytes,
    registration_id: u32,
) -> (r: Credentials)
    ensures
        r.address.name@ == (match response_uuid {
            Some(u) => encode_utf8(u@),
            None => number.spec_bytes(),
        }),
        r.address.device_id == (match response_device_id {
            Some(d) => d,
            None => 1,
        }),
        r.api_pass@ == api_pass@,
        r.identity_key_pair@ == identity_key_pair@,
        r.registration_id == registration_id,
{
    let name: Vec<u8> = match &response_uuid {
        Some(u) => u.as_str().as_bytes_vec(),
        None => number.as_bytes_vec(),
    };
    let device_id: u32 = match response_device_id {
        Some(d) => d,
        None => 1,
    };
    Credentials {
        address: ProtocolAddress::new(name, device_id),
        api_pass,
        identity_key_pair,
        registration_id,
    }
}

} // verus!
