use vstd::prelude::*;
use vstd::string::StringExecFns;
use crate::error::Error;

verus! {

/// Where and how the client talks to the service: the user agent it
/// announces, the `host:port` authority, and the root certificate bytes the
/// transport should trust (supplied by the caller; empty means the
/// platform's roots).
pub struct ApiConfig {
    pub user_agent: String,
    pub authority: String,
    pub cert_bytes: Vec<u8>,
}

impl Default for ApiConfig {
    fn default() -> (r: Self)
        ensures
            r.user_agent@ == "Signal-Desktop/6.10.1 Linux"@,
            r.authority@ == "textsecure-service.whispersystems.org:443"@,
            r.cert_bytes@ == Seq::<u8>::empty(),
    {
        ApiConfig {
            user_agent: String::from_str("Signal-Desktop/6.10.1 Linux"),
            authority: String::from_str("textsecure-service.whispersystems.org:443"),
            cert_bytes: Vec::new(),
        }
    }
}

/// The service endpoints the client uses.
pub enum ApiPath<'a> {
    ProvisioningSocket,
    Device { provisioning_code: &'a str },
    PreKeys,
    SendMessage { recipient: &'a str },
    GetSessionKey { recipient: &'a str, device_id: &'a str },
}

impl<'a> ApiPath<'a> {
    /// The request path of the endpoint, with its parameters filled in.
    pub fn get_path(self) -> (r: String)
        ensures
            r@ == (match self {
                ApiPath::ProvisioningSocket => "/v1/websocket/provisioning/"@,
                ApiPath::Device { provisioning_code } => "/v1/devices/"@ + provisioning_code@,
                ApiPath::PreKeys => "/v2/keys/"@,
                ApiPath::SendMessage { recipient } => "/v1/messages/"@ + recipient@,
                ApiPath::GetSessionKey { recipient, device_id } => "/v2/keys/"@ + recipient@ + "/"@
                    + device_id@,
            }),
    {
        match self {
            ApiPath::ProvisioningSocket => String::from_str("/v1/websocket/provisioning/"),
            ApiPath::Device { provisioning_code } => {
                let mut path = String::from_str("/v1/devices/");
                path.append(provisioning_code);
                path
            },
            ApiPath::PreKeys => String::from_str("/v2/keys/"),
            ApiPath::SendMessage { recipient } => {
                let mut path = String::from_str("/v1/messages/");
                path.append(recipient);
                path
            },
            ApiPath::GetSessionKey { recipient, device_id } => {
                let mut path = String::from_str("/v2/keys/");
                path.append(recipient);
                path.append("/");
                path.append(device_id);
                path
            },
        }
    }
}

/// A request body: nothing, or bytes already rendered as JSON.
pub enum Body {
    Empty,
    Json(Vec<u8>),
}

impl Body {
    pub fn empty() -> (r: Self)
        ensures
            r is Empty,
    {
        Body::Empty
    }
}

/// What a response status means to this client: success passes through, the
/// retired status and every other failure each map to their own error, with
/// the response body kept for the report.
pub fn classify_status(status: u16, body: String) -> (r: Result<(), Error>)
    ensures
        (match r {
            Ok(()) => 200 <= status < 300,
            Err(e) => match e {
                Error::DeprecatedHttpError(b) => status == 499 && b@ == body@,
                Error::HttpError(s, b) => s == status && b@ == body@ && !(200 <= status < 300)
                    && status != 499,
                _ => false,
            },
        }),
{
    if 200 <= status && status < 300 {
        Ok(())
    } else if status == 499 {
        Err(Error::DeprecatedHttpError(body))
    } else {
        Err(Error::HttpError(status, body))
    }
}

} // verus!
