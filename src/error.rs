use vstd::prelude::*;

verus! {

/// The server's error taxonomy.  Each kind answers with one HTTP status;
/// `sensitive_message` and the failure descriptions are diagnostics that stay
/// out of the response body.
pub enum ApiError {
    EndpointNotFound { path: String },
    ResourceNotFound { id: String },
    InvalidParameter { message: String, sensitive_message: Option<String> },
    /// A filesystem failure, reported to the client as an upload error.
    IoError { description: String },
    ImageUploadError { message: String },
    ImageGenerateError { message: String },
    /// The composition engine rejected the input or failed internally.
    ImageProcessFailed { description: String },
}

/// The HTTP status that answers `e`.
pub open spec fn status_of(e: ApiError) -> u16 {
    match e {
        ApiError::EndpointNotFound { .. } => 404,
        ApiError::ResourceNotFound { .. } => 404,
        ApiError::InvalidParameter { .. } => 400,
        ApiError::IoError { .. } => 500,
        ApiError::ImageUploadError { .. } => 500,
        ApiError::ImageGenerateError { .. } => 400,
        ApiError::ImageProcessFailed { .. } => 400,
    }
}

impl ApiError {
    /// The HTTP status code of this error.
    pub fn status_code(&self) -> (r: u16)
        ensures
            r == status_of(*self),
    {
        match self {
            ApiError::EndpointNotFound { .. } | ApiError::ResourceNotFound { .. } => 404,
            ApiError::InvalidParameter { .. } => 400,
            ApiError::IoError { .. } => 500,
            ApiError::ImageUploadError { .. } => 500,
            ApiError::ImageGenerateError { .. } => 400,
            ApiError::ImageProcessFailed { .. } => 400,
        }
    }
}

/// The user-facing message of a failed upload.
pub open spec fn upload_failed_text() -> Seq<char> {
    "Failed to upload image"@
}

/// The user-facing message of a response image that could not be encoded.
pub open spec fn generate_failed_text() -> Seq<char> {
    "Failed to generate image"@
}

/// An upload failure: a lock conflict or a part that could not be stored.
pub fn upload_failed() -> (r: ApiError)
    ensures
        r matches ApiError::ImageUploadError { message } && message@ == upload_failed_text(),
{
    ApiError::ImageUploadError { message: String::from_str("Failed to upload image") }
}

/// The error answered when the merged image cannot be encoded for the response.
pub fn generate_failed() -> (r: ApiError)
    ensures
        r matches ApiError::ImageGenerateError { message } && message@ == generate_failed_text(),
{
    ApiError::ImageGenerateError { message: String::from_str("Failed to generate image") }
}

} // verus!
