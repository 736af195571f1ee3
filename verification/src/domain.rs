//! Domain constants and the durable post record's model.

use vstd::prelude::*;

verus! {

/// Upper bound on the character length of a post's text.
pub const MAX_TEXT_LENGTH: usize = 10000;

/// Lower bound on the character length of a post's text.
pub const MIN_TEXT_LENGTH: usize = 10;

/// Ceiling, in bytes, on any single binary payload (upload or fetched avatar).
pub const MAX_FILE_SIZE: usize = 5242880;

/// The canonical image type: every accepted binary asset is normalized to it,
/// and declared content types are held against this MIME name.
pub open spec fn canonical_image_mime() -> Seq<char> {
    "image/png"@
}

/// A durable post as this crate models it: the identifier in its hyphenated
/// textual form, the creation instant as microseconds since the Unix epoch,
/// and the optional asset file names. A row is written exactly once, at
/// commit time, and never references an asset that was not stored first.
pub struct BlogPost {
    pub id: String,
    pub text: String,
    pub published_at: i64,
    pub image_path: Option<String>,
    pub username: String,
    pub user_avatar_path: Option<String>,
}

} // verus!
