//! The submission pipeline's error taxonomy. The client-caused variants —
//! a payload the image codec rejects among them — answer with a 400 status;
//! the server faults answer with 500.
//! Outside failures (database, filesystem, image codec, transport) reach this
//! type only as plain detail strings.

use vstd::prelude::*;
use vstd::string::StringExecFns;

verus! {

/// Everything that can go wrong while creating a post.
#[derive(Debug)]
pub enum CreatePostError {
    /// An uploaded part declared a content type other than the canonical image type.
    InvalidFileType,
    /// A binary payload exceeded the configured byte ceiling.
    FileTooLarge,
    /// The database reported a failure; the detail is its message.
    DatabaseError(String),
    /// A filesystem write failed; the detail is the I/O message.
    IoError(String),
    /// The avatar fetch failed; the detail names the status or transport fault.
    AvatarDownloadError(String),
    /// The submission violated an input constraint; the detail aggregates
    /// every violated rule.
    ValidationError(String),
    /// The image codec rejected the payload — bad input, not a server
    /// fault; the detail is the codec's message.
    ImageError(String),
    /// Malformed multipart framing or another non-recoverable fault.
    InternalError,
}

/// The client-visible shape of a failure: an HTTP status and a categorized,
/// human-readable message.
pub struct ErrorResponse {
    pub status_code: u16,
    pub message: String,
}

impl CreatePostError {
    /// Whether the error is caused by the client's input (400 class) rather
    /// than by this server or its collaborators (500 class).
    pub open spec fn is_client_error(&self) -> bool {
        match self {
            CreatePostError::InvalidFileType => true,
            CreatePostError::FileTooLarge => true,
            CreatePostError::ValidationError(_) => true,
            CreatePostError::AvatarDownloadError(_) => true,
            CreatePostError::ImageError(_) => true,
            CreatePostError::DatabaseError(_) => false,
            CreatePostError::IoError(_) => false,
            CreatePostError::InternalError => false,
        }
    }

    /// The HTTP status this error answers with: 400 for client-caused
    /// failures, 500 for server faults.
    pub open spec fn spec_status_code(&self) -> u16 {
        if self.is_client_error() {
            400
        } else {
            500
        }
    }

    /// The categorized message shown to the client; internal causes appear
    /// only as the variant's own detail string.
    pub open spec fn spec_message(&self) -> Seq<char> {
        match self {
            CreatePostError::InvalidFileType => "Invalid file type. Supported types is only PNG"@,
            CreatePostError::FileTooLarge => "File too large. Maximum size is 5MB"@,
            CreatePostError::DatabaseError(d) => "Database error: "@ + d@,
            CreatePostError::IoError(d) => "IO error: "@ + d@,
            CreatePostError::AvatarDownloadError(d) => "Failed to download avatar: "@ + d@,
            CreatePostError::ValidationError(d) => "Invalid input: "@ + d@,
            CreatePostError::ImageError(d) => "Image processing error: "@ + d@,
            CreatePostError::InternalError => "Internal server error"@,
        }
    }

    /// See [`Self::spec_status_code`].
    pub fn status_code(&self) -> (code: u16)
        ensures
            code == self.spec_status_code(),
            code == 400 <==> self.is_client_error(),
            code == 400 || code == 500,
    {
        match self {
            CreatePostError::InvalidFileType
            | CreatePostError::FileTooLarge
            | CreatePostError::ValidationError(_)
            | CreatePostError::AvatarDownloadError(_)
            | CreatePostError::ImageError(_) => 400,
            CreatePostError::DatabaseError(_)
            | CreatePostError::IoError(_)
            | CreatePostError::InternalError => 500,
        }
    }

    /// See [`Self::spec_message`].
    pub fn message(&self) -> (msg: String)
        ensures
            msg@ == self.spec_message(),
    {
        match self {
            CreatePostError::InvalidFileType => {
                String::from_str("Invalid file type. Supported types is only PNG")
            },
            CreatePostError::FileTooLarge => {
                String::from_str("File too large. Maximum size is 5MB")
            },
            CreatePostError::DatabaseError(d) => {
                String::from_str("Database error: ").concat(d.as_str())
            },
            CreatePostError::IoError(d) => String::from_str("IO error: ").concat(d.as_str()),
            CreatePostError::AvatarDownloadError(d) => {
                String::from_str("Failed to download avatar: ").concat(d.as_str())
            },
            CreatePostError::ValidationError(d) => {
                String::from_str("Invalid input: ").concat(d.as_str())
            },
            CreatePostError::ImageError(d) => {
                String::from_str("Image processing error: ").concat(d.as_str())
            },
            CreatePostError::InternalError => String::from_str("Internal server error"),
        }
    }

    /// The body of the HTTP answer for this error: its status and message.
    pub fn error_response(&self) -> (resp: ErrorResponse)
        ensures
            resp.status_code == self.spec_status_code(),
            resp.message@ == self.spec_message(),
    {
        ErrorResponse { status_code: self.status_code(), message: self.message() }
    }
}

} // verus!
