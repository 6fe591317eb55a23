use vstd::prelude::*;

use crate::error::{generate_failed, generate_failed_text, ApiError};

verus! {

/// `image::DynamicImage`, carried as an opaque value: the merged image.
#[verifier::external_type_specification]
#[verifier::external_body]
pub struct ExDynamicImage(image::DynamicImage);

/// The PNG encoding of `img`, or `None` where the encoder rejects it.
pub uninterp spec fn png_of(img: image::DynamicImage) -> Option<Seq<u8>>;

/// Relies on `image::DynamicImage::write_to` with `ImageOutputFormat::Png`
/// into an in-memory buffer: the encoded bytes, or `None` when the encoder
/// reported an error; the outcome depends on the image alone.
#[verifier::external_body]
fn write_png(img: &image::DynamicImage) -> (r: Option<Vec<u8>>)
    ensures
        match r {
            Some(b) => png_of(*img) == Some(b@),
            None => png_of(*img) is None,
        },
{
    let mut buffer = std::io::Cursor::new(Vec::new());
    match img.write_to(&mut buffer, image::ImageOutputFormat::Png) {
        Ok(()) => Some(buffer.into_inner()),
        Err(_) => None,
    }
}

/// The merged image that answers a successful merge request.
pub struct ReceiptCreatedResponse {
    pub image: image::DynamicImage,
}

/// The response body for the outcome of encoding the merged image: the PNG
/// bytes, or the image-generation error when encoding failed.
pub fn png_body(encoded: Option<Vec<u8>>) -> (r: Result<Vec<u8>, ApiError>)
    ensures
        match encoded {
            Some(b) => r matches Ok(body) && body@ == b@,
            None => r matches Err(e) && (e matches ApiError::ImageGenerateError { message }
                && message@ == generate_failed_text()),
        },
{
    match encoded {
        Some(b) => Ok(b),
        None => Err(generate_failed()),
    }
}

impl ReceiptCreatedResponse {
    /// Encodes the merged image as PNG for the response body; a failed
    /// encoding becomes the image-generation error.
    pub fn respond_to(self) -> (r: Result<Vec<u8>, ApiError>)
        ensures
            match png_of(self.image) {
                Some(b) => r matches Ok(body) && body@ == b,
                None => r matches Err(e) && (e matches ApiError::ImageGenerateError { message }
                    && message@ == generate_failed_text()),
            },
    {
        png_body(write_png(&self.image))
    }
}

} // verus!
