//! The image codec guard: the trust boundary every externally supplied byte
//! payload must pass. The bytes are decoded by content sniffing and
//! re-encoded to the canonical format; whatever the uploader or a remote
//! server claimed, only the normalized bytes are ever stored.

use vstd::prelude::*;

use crate::errors::CreatePostError;

verus! {

/// Whether the image codec accepts these bytes: they decode as an image (by
/// sniffing the content, not any declared type) and re-encode cleanly.
pub uninterp spec fn png_normalizable(b: Seq<u8>) -> bool;

/// The canonical PNG re-encoding of an accepted payload.
pub uninterp spec fn png_reencoding(b: Seq<u8>) -> Seq<u8>;

/// Relies on `image::load_from_memory`, which guesses the format from the
/// bytes alone, and `image::DynamicImage::write_to` with `ImageFormat::Png`
/// into an in-memory buffer. Decoding followed by re-encoding is a function
/// of the input bytes alone; on any codec failure the error's message is
/// returned instead.
#[verifier::external_body]
fn reencode_as_png(data: &Vec<u8>) -> (r: Result<Vec<u8>, String>)
    ensures
        r is Ok <==> png_normalizable(data@),
        r matches Ok(v) ==> v@ == png_reencoding(data@),
{
    let img = match image::load_from_memory(data.as_slice()) {
        Ok(img) => img,
        Err(e) => return Err(e.to_string()),
    };
    let mut buffer = std::io::Cursor::new(Vec::new());
    match img.write_to(&mut buffer, image::ImageFormat::Png) {
        Ok(()) => Ok(buffer.into_inner()),
        Err(e) => Err(e.to_string()),
    }
}

/// Holds a candidate payload against the codec guard: accepted bytes come
/// back normalized to canonical PNG, anything else is an image-processing
/// error carrying the codec's message — a client-caused failure, since the
/// payload, not the server, is at fault.
pub fn guard_image(data: &Vec<u8>) -> (r: Result<Vec<u8>, CreatePostError>)
    ensures
        r is Ok <==> png_normalizable(data@),
        r matches Ok(v) ==> v@ == png_reencoding(data@),
        r matches Err(e) ==> e is ImageError,
{
    match reencode_as_png(data) {
        Ok(v) => Ok(v),
        Err(m) => Err(CreatePostError::ImageError(m)),
    }
}

} // verus!
