//! Image conversion: decode the source bytes (format auto-detected from the
//! content, never from the extension) and re-encode them as WebP. Decoding
//! and re-encoding are pure functions of the source bytes, named below; the
//! image codecs themselves are outside code, called through one trusted
//! wrapper.
use vstd::prelude::*;

use crate::paths::{output_path, spec_output_path};

verus! {

/// Whether the image codecs can decode these bytes at all.
pub uninterp spec fn decodes(source: Seq<u8>) -> bool;

/// Whether the decoded image can be re-encoded as WebP.
pub uninterp spec fn webp_encodable(source: Seq<u8>) -> bool;

/// The WebP re-encoding of the image in `source`, meaningful when `source`
/// decodes and is encodable.
pub uninterp spec fn webp_of(source: Seq<u8>) -> Seq<u8>;

/// Why a conversion failed.
#[derive(Debug)]
pub enum ConvertFault {
    /// The bytes are not a parseable image.
    Decode { cause: String },
    /// The decoded image could not be re-encoded to the target format.
    Encode { cause: String },
}

/// Relies on `image::load_from_memory` and `image::DynamicImage::write_to`
/// (with the WebP format) of the image crate: both read nothing but the
/// bytes given, so whether decoding succeeds, whether the WebP encoder
/// accepts the decoded image, and the encoded output are all functions of
/// the source bytes alone. The encoder writes into an in-memory buffer; no
/// file is touched.
#[verifier::external_body]
fn convert_bytes_to_webp(source: &Vec<u8>) -> (r: Result<Vec<u8>, ConvertFault>)
    ensures
        match r {
            Ok(out) => decodes(source@) && webp_encodable(source@) && out@ == webp_of(source@),
            Err(f) => !(decodes(source@) && webp_encodable(source@)) && ((f is Decode) <==> !decodes(
                source@,
            )),
        },
{
    let img = match image::load_from_memory(source.as_slice()) {
        Ok(i) => i,
        Err(e) => return Err(ConvertFault::Decode { cause: format!("{e}") }),
    };
    let mut cursor = std::io::Cursor::new(Vec::new());
    match img.write_to(&mut cursor, image::ImageFormat::WebP) {
        Ok(()) => Ok(cursor.into_inner()),
        Err(e) => Err(ConvertFault::Encode { cause: format!("{e}") }),
    }
}

/// The re-encoded image, ready to be written next to its source.
pub struct ConvertedArtifact {
    /// The source path with its extension replaced by the target's.
    pub output_path: Vec<u8>,
    /// The re-encoded bytes.
    pub data: Vec<u8>,
}

/// Converts the source read from `source_path` to WebP. Succeeds exactly
/// when the bytes decode as an image that the WebP encoder accepts; the
/// artifact then holds the re-encoding and the derived sibling output path.
/// The source is never modified.
pub fn convert_image(source_path: &Vec<u8>, source: &Vec<u8>) -> (r: Result<
    ConvertedArtifact,
    ConvertFault,
>)
    ensures
        r is Ok <==> decodes(source@) && webp_encodable(source@),
        r matches Ok(a) ==> a.output_path@ == spec_output_path(source_path@) && a.data@ == webp_of(
            source@,
        ),
        r matches Err(f) ==> ((f is Decode) <==> !decodes(source@)),
{
    match convert_bytes_to_webp(source) {
        Ok(data) => Ok(ConvertedArtifact { output_path: output_path(source_path), data }),
        Err(f) => Err(f),
    }
}

} // verus!
