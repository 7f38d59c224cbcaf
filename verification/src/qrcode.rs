use vstd::prelude::*;
use qrcode::render::unicode::Dense1x2;
use qrcode::QrCode;

verus! {

/// The half-block unicode rendering of a QR code for the given data, with
/// the given colour polarity.
pub uninterp spec fn qr_unicode_of(data: Seq<char>, inverted: bool) -> Seq<char>;

/// Relies on qrcode's `QrCode::new` and the `Dense1x2` unicode renderer,
/// with dark and light swapped; the rendering depends on the data alone.
/// `None` when the data exceeds what a QR code can carry.
#[verifier::external_body]
fn qr_render_inverted(data: &str) -> (r: Option<String>)
    ensures
        r matches Some(image) ==> image@ == qr_unicode_of(data@, true),
{
    match QrCode::new(data) {
        Ok(code) => {
            let mut renderer = code.render::<Dense1x2>();
            renderer.dark_color(Dense1x2::Light).light_color(Dense1x2::Dark);
            Some(renderer.build())
        },
        Err(_) => None,
    }
}

/// Relies on qrcode's `QrCode::new` and the `Dense1x2` unicode renderer;
/// the rendering depends on the data alone. `None` when the data exceeds
/// what a QR code can carry.
#[verifier::external_body]
fn qr_render_plain(data: &str) -> (r: Option<String>)
    ensures
        r matches Some(image) ==> image@ == qr_unicode_of(data@, false),
{
    match QrCode::new(data) {
        Ok(code) => Some(code.render::<Dense1x2>().build()),
        Err(_) => None,
    }
}

/// A scannable terminal rendering of the data, inverted for dark terminal
/// backgrounds when asked; `None` when the data is too long for a QR code.
pub fn qrcode_image(data: &str, inverted: bool) -> (r: Option<String>)
    ensures
        r matches Some(image) ==> image@ == qr_unicode_of(data@, inverted),
{
    if inverted {
        qr_render_inverted(data)
    } else {
        qr_render_plain(data)
    }
}

} // verus!
