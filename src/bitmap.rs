use vstd::prelude::*;

verus! {

#[verifier::external_type_specification]
#[verifier::external_body]
pub struct ExImageError(image::ImageError);

/// The samples of the BMP image encoded by `b`, row by row and channel by
/// channel, or `None` where `b` is no BMP image that can be decoded.
pub uninterp spec fn bmp_samples(b: Seq<u8>) -> Option<Seq<u8>>;

/// Relies on image::load_from_memory_with_format, with the BMP format, to
/// decode the bytes, which it does from the bytes alone, and on
/// DynamicImage::into_bytes to hand the decoded samples out as bytes.
#[verifier::external_body]
fn decode_bmp(bytes: &[u8]) -> (r: Result<Vec<u8>, image::ImageError>)
    ensures
        match r {
            Ok(v) => bmp_samples(bytes@) == Some(v@),
            Err(_) => bmp_samples(bytes@) is None,
        },
{
    match image::load_from_memory_with_format(bytes, image::ImageFormat::Bmp) {
        Ok(img) => Ok(img.into_bytes()),
        Err(e) => Err(e),
    }
}

/// Why a bitmap could not be loaded.
#[derive(Clone, Copy, Debug, PartialEq, Eq, Structural)]
pub enum LoadError {
    /// The bytes are no BMP image that can be decoded.
    Decode,
}

/// Decodes a BMP image into its samples, one byte each.
pub fn load_image(bytes: &[u8]) -> (r: Result<Vec<u8>, LoadError>)
    ensures
        match r {
            Ok(v) => bmp_samples(bytes@) == Some(v@),
            Err(e) => e == LoadError::Decode && bmp_samples(bytes@) is None,
        },
{
    match decode_bmp(bytes) {
        Ok(v) => Ok(v),
        Err(_) => Err(LoadError::Decode),
    }
}

} // verus!
