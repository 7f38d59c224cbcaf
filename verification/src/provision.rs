use vstd::prelude::*;
use vstd::string::StringExecFns;
use crate::codec::{b64_encode, b64_of};
use crate::error::Error;
use crate::keys::{generate_key_pair, KeyPairBytes, KEY_LEN};
use crate::qrcode::{qr_unicode_of, qrcode_image};

verus! {

/// How often, in seconds, the provisioning socket must be nudged to stay
/// alive while waiting for the user to scan.
pub const HEARTBEAT_INTERVAL_SECS: u64 = 15;

/// What the primary device hands over in the provisioning envelope.
pub struct ProvisionMessage {
    pub identity_key_pair: KeyPairBytes,
    pub number: String,
    pub provisioning_code: String,
}

impl ProvisionMessage {
    /// The account identifier the envelope names.
    pub fn number(&self) -> (r: &str)
        ensures
            r@ == self.number@,
    {
        self.number.as_str()
    }

    /// The one-time code that authorises the registration call.
    pub fn provisioning_code(&self) -> (r: &str)
        ensures
            r@ == self.provisioning_code@,
    {
        self.provisioning_code.as_str()
    }

    /// The account's long-term identity key pair.
    pub fn identity_key_pair(&self) -> (r: &KeyPairBytes)
        ensures
            r@ == self.identity_key_pair@,
    {
        &self.identity_key_pair
    }
}

/// Where the provisioning handshake stands.
pub enum ProvisioningState {
    AwaitingUuid,
    UuidReceived { uuid: String },
    Provisioned { message: ProvisionMessage },
    Failed,
}

/// One inbound frame, after the transport and envelope layers have
/// unpacked it into plain values.
pub enum ProvisioningFrame {
    Ping { payload: Vec<u8> },
    Pong,
    Text,
    Close,
    Uuid { request_id: u64, uuid: String },
    Envelope {
        request_id: u64,
        identity_key_pair: KeyPairBytes,
        number: String,
        provisioning_code: String,
    },
}

/// What the engine asks the transport to do in reply to a frame. Every
/// frame that carries a correlation id is acknowledged.
pub enum ProvisioningAction {
    Ignore,
    SendPong { payload: Vec<u8> },
    Ack { request_id: u64 },
    AckAndShowQr { request_id: u64, url: String, image: Option<String> },
    AckAndClose { request_id: u64 },
}

/// The identity-exchange URL the primary device scans: it names the
/// session and carries the ephemeral public key.
pub open spec fn spec_provisioning_url(uuid: Seq<char>, public_key: Seq<u8>) -> Seq<char> {
    "sgnl://linkdevice?uuid="@ + uuid + "&pub_key="@ + b64_of(public_key)
}

/// Render the identity-exchange URL.
pub fn provisioning_url(uuid: &str, public_key: &Vec<u8>) -> (r: String)
    ensures
        r@ == spec_provisioning_url(uuid@, public_key@),
{
    let mut url = String::from_str("sgnl://linkdevice?uuid=");
    url.append(uuid);
    url.append("&pub_key=");
    let encoded = b64_encode(public_key);
    url.append(encoded.as_str());
    proof {
        assert(url@ =~= spec_provisioning_url(uuid@, public_key@));
    }
    url
}

/// The provisioning handshake engine: a state machine over the frames of
/// the provisioning socket, holding the ephemeral key pair whose public
/// half is shown to the primary device.
pub struct ProvisioningEngine {
    pub state: ProvisioningState,
    pub ephemeral_key_pair: KeyPairBytes,
}

impl ProvisioningEngine {
    pub fn new() -> (r: Self)
        ensures
            r.state is AwaitingUuid,
            r.ephemeral_key_pair@.public_key.len() == KEY_LEN,
            r.ephemeral_key_pair@.private_key.len() == KEY_LEN,
    {
        ProvisioningEngine {
            state: ProvisioningState::AwaitingUuid,
            ephemeral_key_pair: generate_key_pair(),
        }
    }

    /// One step of the handshake: a ping is answered with a pong; pongs,
    /// text and clean closes are ignored; the session-naming frame moves
    /// the engine forward and asks for the scannable URL to be shown; the
    /// envelope completes the handshake and closes the socket; every frame
    /// bearing a correlation id is acknowledged.
    pub fn process_frame(&mut self, frame: ProvisioningFrame) -> (r: ProvisioningAction)
        ensures
            final(self).ephemeral_key_pair == old(self).ephemeral_key_pair,
            (match frame {
                ProvisioningFrame::Ping { payload } => final(self).state == old(self).state && (r
                    matches ProvisioningAction::SendPong { payload: p } && p@ == payload@),
                ProvisioningFrame::Pong => final(self).state == old(self).state && r is Ignore,
                ProvisioningFrame::Text => final(self).state == old(self).state && r is Ignore,
                ProvisioningFrame::Close => final(self).state == old(self).state && r is Ignore,
                ProvisioningFrame::Uuid { request_id, uuid } => (match old(self).state {
                    ProvisioningState::AwaitingUuid => {
                        &&& (final(self).state matches ProvisioningState::UuidReceived {
                            uuid: u,
                        } && u@ == uuid@)
                        &&& (r matches ProvisioningAction::AckAndShowQr {
                            request_id: rid,
                            url,
                            image,
                        } && rid == request_id && url@ == spec_provisioning_url(
                            uuid@,
                            old(self).ephemeral_key_pair@.public_key,
                        ) && (image matches Some(im) ==> im@ == qr_unicode_of(url@, true)))
                    },
                    _ => final(self).state == old(self).state && (r
                        matches ProvisioningAction::Ack { request_id: rid } && rid == request_id),
                }),
                ProvisioningFrame::Envelope {
                    request_id,
                    identity_key_pair,
                    number,
                    provisioning_code,
                } => (match old(self).state {
                    ProvisioningState::UuidReceived { .. } => {
                        &&& (final(self).state matches ProvisioningState::Provisioned {
                            message,
                        } && message.identity_key_pair@ == identity_key_pair@ && message.number@
                            == number@ && message.provisioning_code@ == provisioning_code@)
                        &&& (r matches ProvisioningAction::AckAndClose { request_id: rid } && rid
                            == request_id)
                    },
                    _ => final(self).state == old(self).state && (r
                        matches ProvisioningAction::Ack { request_id: rid } && rid == request_id),
                }),
            }),
    {
        match frame {
            ProvisioningFrame::Ping { payload } => ProvisioningAction::SendPong { payload },
            ProvisioningFrame::Pong => ProvisioningAction::Ignore,
            ProvisioningFrame::Text => ProvisioningAction::Ignore,
            ProvisioningFrame::Close => ProvisioningAction::Ignore,
            ProvisioningFrame::Uuid { request_id, uuid } => match &self.state {
                ProvisioningState::AwaitingUuid => {
                    let url = provisioning_url(uuid.as_str(), &self.ephemeral_key_pair.public_key);
                    let image = qrcode_image(url.as_str(), true);
                    self.state = ProvisioningState::UuidReceived { uuid };
                    ProvisioningAction::AckAndShowQr { request_id, url, image }
                },
                _ => ProvisioningAction::Ack { request_id },
            },
            ProvisioningFrame::Envelope {
                request_id,
                identity_key_pair,
                number,
                provisioning_code,
            } => match &self.state {
                ProvisioningState::UuidReceived { .. } => {
                    let message = ProvisionMessage { identity_key_pair, number, provisioning_code };
                    self.state = ProvisioningState::Provisioned { message };
                    ProvisioningAction::AckAndClose { request_id }
                },
                _ => ProvisioningAction::Ack { request_id },
            },
        }
    }

    /// A transport-level end of the socket, clean or abrupt, is a normal
    /// terminal condition: the handshake failed unless it was already
    /// complete.
    pub fn on_socket_closed(&mut self)
        ensures
            final(self).ephemeral_key_pair == old(self).ephemeral_key_pair,
            (match old(self).state {
                ProvisioningState::Provisioned { .. } => final(self).state == old(self).state,
                _ => final(self).state is Failed,
            }),
    {
        match &self.state {
            ProvisioningState::Provisioned { .. } => (),
            _ => {
                self.state = ProvisioningState::Failed;
            },
        }
    }

    /// The handshake's outcome: the envelope, or the distinct failure that
    /// says provisioning ended without one.
    pub fn into_result(self) -> (r: Result<ProvisionMessage, Error>)
        ensures
            (match self.state {
                ProvisioningState::Provisioned { message } => r matches Ok(m) && m == message,
                _ => r matches Err(e) && e is ProvisioningFailed,
            }),
    {
        match self.state {
            ProvisioningState::Provisioned { message } => Ok(message),
            _ => Err(Error::ProvisioningFailed),
        }
    }
}

} // verus!
