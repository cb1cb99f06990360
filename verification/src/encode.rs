//! Trusted boundary to the encoders the capture path relies on: base64 for
//! transporting binary payloads as text, JPEG for compressing a raw frame,
//! and the clock for capture timestamps.

use base64::Engine as _;
use vstd::prelude::*;

verus! {

/// What base64 (standard alphabet, with padding) encodes a byte sequence to.
pub uninterp spec fn base64_of(bytes: Seq<u8>) -> Seq<char>;

/// What the JPEG encoder produces for a packed RGB8 buffer with the given
/// dimensions.
pub uninterp spec fn jpeg_of(rgb: Seq<u8>, width: u32, height: u32) -> Seq<u8>;

/// Whether the JPEG encoder accepts a packed RGB8 buffer with the given
/// dimensions; acceptance depends on the arguments alone.
pub uninterp spec fn jpeg_accepts(rgb: Seq<u8>, width: u32, height: u32) -> bool;

/// The RFC 3339 date-time shape that chrono's `to_rfc3339` documents of
/// every string it returns.
pub uninterp spec fn rfc3339_shaped(s: Seq<char>) -> bool;

/// Relies on base64's `STANDARD` engine: the encoding is a function of the
/// bytes alone, and the padded output holds four characters for every group
/// of up to three bytes. The length bound keeps the engine's internal buffer
/// arithmetic from overflowing.
#[verifier::external_body]
pub(crate) fn base64_encode(bytes: &Vec<u8>) -> (r: String)
    requires
        bytes@.len() * 4 <= usize::MAX,
    ensures
        r@ == base64_of(bytes@),
        r@.len() == 4 * ((bytes@.len() + 2) / 3),
{
    base64::engine::general_purpose::STANDARD.encode(bytes)
}

/// Relies on image's `ImageBuffer::from_raw` and `write_to`: encoding a
/// packed RGB8 buffer to JPEG is a function of the buffer and its dimensions
/// alone, and so is whether the encoder accepts it (it rejects exactly the
/// dimensions outside its supported range). A rejected buffer yields an
/// error, never a panic, because the buffer length matches the dimensions
/// exactly.
#[verifier::external_body]
pub(crate) fn jpeg_encode(rgb: Vec<u8>, width: u32, height: u32) -> (r: Result<Vec<u8>, String>)
    requires
        rgb@.len() == 3 * (width as nat) * (height as nat),
    ensures
        r matches Ok(j) ==> j@ == jpeg_of(rgb@, width, height),
        r is Ok <==> jpeg_accepts(rgb@, width, height),
{
    let img: image::RgbImage = match image::ImageBuffer::from_raw(width, height, rgb) {
        Some(i) => i,
        None => {
            return Err("buffer does not match the image dimensions".to_string());
        },
    };
    let mut cursor = std::io::Cursor::new(Vec::new());
    match img.write_to(&mut cursor, image::ImageFormat::Jpeg) {
        Ok(()) => Ok(cursor.into_inner()),
        Err(e) => Err(format!("{e}")),
    }
}

/// Relies on chrono's `Utc::now` and `to_rfc3339` for timestamps. The result
/// depends on the clock, so only its documented RFC 3339 shape is promised,
/// which holds of every outcome.
#[verifier::external_body]
pub(crate) fn now_rfc3339() -> (r: String)
    ensures
        rfc3339_shaped(r@),
{
    chrono::Utc::now().to_rfc3339()
}

} // verus!
