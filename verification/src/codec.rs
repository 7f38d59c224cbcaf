use vstd::prelude::*;
use base64::Engine;

verus! {

/// The canonical unpadded base64 rendering of a byte sequence.
pub uninterp spec fn b64_of(data: Seq<u8>) -> Seq<char>;

/// Relies on base64's `STANDARD_NO_PAD` engine: `Engine::encode` renders the
/// bytes in the standard alphabet without padding, four characters for
/// every three bytes, rounded up.
#[verifier::external_body]
pub fn b64_encode(data: &Vec<u8>) -> (r: String)
    ensures
        r@ == b64_of(data@),
        r@.len() == (data@.len() * 4 + 2) / 3,
{
    base64::engine::general_purpose::STANDARD_NO_PAD.encode(data.as_slice())
}

/// base64's error type, carried through so that callers can tell a bad
/// encoding from other failures.
#[verifier::external_type_specification]
#[verifier::external_body]
pub struct ExDecodeError(base64::DecodeError);

/// Relies on base64's `STANDARD_NO_PAD` engine: `Engine::decode` rejects
/// padding and trailing bits, so it accepts exactly the canonical unpadded
/// renderings, and on those it inverts `Engine::encode`.
#[verifier::external_body]
pub fn b64_decode(text: &str) -> (r: Result<Vec<u8>, base64::DecodeError>)
    ensures
        r matches Ok(v) ==> text@ == b64_of(v@) && (forall|b: Seq<u8>|
            text@ == b64_of(b) ==> b == v@),
        (exists|b: Seq<u8>| text@ == b64_of(b)) ==> r is Ok,
{
    base64::engine::general_purpose::STANDARD_NO_PAD.decode(text)
}

/// The ASCII decimal digits of a number, most significant first.
pub open spec fn spec_decimal(n: nat) -> Seq<u8>
    decreases n,
{
    if n < 10 {
        seq![(48 + n) as u8]
    } else {
        spec_decimal(n / 10).push((48 + n % 10) as u8)
    }
}

/// Render a number as ASCII decimal digits.
pub fn u32_decimal(n: u32) -> (r: Vec<u8>)
    ensures
        r@ == spec_decimal(n as nat),
    decreases n,
{
    if n < 10 {
        let mut out: Vec<u8> = Vec::new();
        out.push((48 + n) as u8);
        assert(out@ =~= spec_decimal(n as nat));
        out
    } else {
        let mut out = u32_decimal(n / 10);
        out.push((48 + n % 10) as u8);
        out
    }
}

/// A blob pushed through the wire rendering and back comes out byte-identical.
pub fn b64_round_trip(data: &Vec<u8>) -> (r: Vec<u8>)
    ensures
        r@ == data@,
{
    let text = b64_encode(data);
    match b64_decode(text.as_str()) {
        Ok(v) => v,
        Err(_) => {
            proof {
                assert(false);
            }
            Vec::new()
        },
    }
}

} // verus!
