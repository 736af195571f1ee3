//! Decisions of the multipart field extractor. The embedding application
//! walks the multipart body and, for each part, asks this module what to do
//! with it; the module recognizes the four field names, rejects structural
//! problems early, and accumulates the typed field values.

use vstd::prelude::*;
use vstd::string::StrSliceExecFns;
use vstd::string::StringExecFns;

use crate::domain::MAX_FILE_SIZE;
use crate::errors::CreatePostError;
use crate::strutil::str_eq;

verus! {

/// The four optional values a multipart body can carry, before validation.
pub struct RawFields {
    pub text: Option<String>,
    pub username: Option<String>,
    pub user_avatar_url: Option<String>,
    pub image_data: Option<Vec<u8>>,
}

impl RawFields {
    /// The extractor's starting point: nothing seen yet.
    pub fn new() -> (f: Self)
        ensures
            f.text is None,
            f.username is None,
            f.user_avatar_url is None,
            f.image_data is None,
    {
        RawFields { text: None, username: None, user_avatar_url: None, image_data: None }
    }
}

/// Which of the recognized field names a part carries, if any.
#[derive(Clone, Copy)]
pub enum FieldKind {
    Text,
    Username,
    AvatarUrl,
    Image,
    Unknown,
}

/// The recognized field names. Any other name is ignored by the extractor.
pub open spec fn spec_classify(name: Seq<char>) -> FieldKind {
    if name == "text"@ {
        FieldKind::Text
    } else if name == "username"@ {
        FieldKind::Username
    } else if name == "user_avatar_url"@ {
        FieldKind::AvatarUrl
    } else if name == "image"@ {
        FieldKind::Image
    } else {
        FieldKind::Unknown
    }
}

/// See [`spec_classify`].
pub fn classify_field(name: &str) -> (k: FieldKind)
    ensures
        k == spec_classify(name@),
{
    if str_eq(name, "text") {
        FieldKind::Text
    } else if str_eq(name, "username") {
        FieldKind::Username
    } else if str_eq(name, "user_avatar_url") {
        FieldKind::AvatarUrl
    } else if str_eq(name, "image") {
        FieldKind::Image
    } else {
        FieldKind::Unknown
    }
}

/// A character that trimming would remove from either end of a text value.
pub open spec fn blank_char(c: char) -> bool {
    c == ' ' || c == '\t' || c == '\n' || c == '\r'
}

/// Whether a value is empty once trimmed: every character is blank.
pub open spec fn spec_blank(s: Seq<char>) -> bool {
    forall|i: int| 0 <= i < s.len() ==> blank_char(s[i])
}

/// See [`spec_blank`].
pub fn is_blank(s: &str) -> (r: bool)
    ensures
        r == spec_blank(s@),
{
    let n = s.unicode_len();
    let mut i: usize = 0;
    while i < n
        invariant
            i <= n,
            n == s@.len(),
            forall|j: int| 0 <= j < i ==> blank_char(s@[j]),
        decreases n - i,
    {
        let c = s.get_char(i);
        if !(c == ' ' || c == '\t' || c == '\n' || c == '\r') {
            return false;
        }
        i = i + 1;
    }
    true
}

/// Records the `text` part's value. A value that is empty after trimming is a
/// structural problem and is rejected at once, before validation proper.
pub fn apply_text(f: &mut RawFields, value: String) -> (r: Result<(), CreatePostError>)
    ensures
        r is Ok <==> !spec_blank(value@),
        r matches Err(e) ==> e matches CreatePostError::ValidationError(d) && d@
            == "Text is required"@,
        r is Err ==> *final (f) == *old(f),
        r is Ok ==> (final (f).text matches Some(t) && t@ == value@),
        r is Ok ==> final (f).username == old(f).username && final (f).user_avatar_url == old(
            f,
        ).user_avatar_url && final (f).image_data == old(f).image_data,
{
    if is_blank(value.as_str()) {
        Err(CreatePostError::ValidationError(String::from_str("Text is required")))
    } else {
        f.text = Some(value);
        Ok(())
    }
}

/// Records the `username` part's value, rejecting a blank value at once.
pub fn apply_username(f: &mut RawFields, value: String) -> (r: Result<(), CreatePostError>)
    ensures
        r is Ok <==> !spec_blank(value@),
        r matches Err(e) ==> e matches CreatePostError::ValidationError(d) && d@
            == "Username is required"@,
        r is Err ==> *final (f) == *old(f),
        r is Ok ==> (final (f).username matches Some(u) && u@ == value@),
        r is Ok ==> final (f).text == old(f).text && final (f).user_avatar_url == old(
            f,
        ).user_avatar_url && final (f).image_data == old(f).image_data,
{
    if is_blank(value.as_str()) {
        Err(CreatePostError::ValidationError(String::from_str("Username is required")))
    } else {
        f.username = Some(value);
        Ok(())
    }
}

/// Records the `user_avatar_url` part's value; an empty value means the field
/// is absent and is not an error.
pub fn apply_avatar_url(f: &mut RawFields, value: String)
    ensures
        value@.len() == 0 ==> *final (f) == *old(f),
        value@.len() > 0 ==> (final (f).user_avatar_url matches Some(u) && u@ == value@),
        final (f).text == old(f).text,
        final (f).username == old(f).username,
        final (f).image_data == old(f).image_data,
{
    if value.as_str().unicode_len() > 0 {
        f.user_avatar_url = Some(value);
    }
}

/// What to do with an `image` part, decided from its metadata alone, before
/// reading any of its body.
///
/// A part without a (non-empty) file name carries no upload: skip it. A part
/// that declares a content type other than the canonical image type is
/// rejected at once. Otherwise the body should be read.
pub fn image_part_disposition(file_name: Option<&String>, content_type: Option<&String>) -> (r:
    Result<bool, CreatePostError>)
    ensures
        (file_name is None || (file_name matches Some(n) && n@.len() == 0)) ==> r matches Ok(false),
        (file_name matches Some(n) && n@.len() > 0) ==> {
            if content_type matches Some(ct) && ct@ != crate::domain::canonical_image_mime() {
                r matches Err(e) && e is InvalidFileType
            } else {
                r matches Ok(true)
            }
        },
{
    match file_name {
        None => Ok(false),
        Some(n) => {
            if n.as_str().unicode_len() == 0 {
                return Ok(false);
            }
            match content_type {
                Some(ct) => {
                    if !str_eq(ct.as_str(), "image/png") {
                        Err(CreatePostError::InvalidFileType)
                    } else {
                        Ok(true)
                    }
                },
                None => Ok(true),
            }
        },
    }
}

/// Accumulates one streamed chunk of an `image` part's body, enforcing the
/// byte ceiling while streaming: the moment the limit would be exceeded the
/// part is rejected, without buffering the rest of the oversized payload.
pub fn accept_image_chunk(buf: &mut Vec<u8>, chunk: &[u8]) -> (r: Result<(), CreatePostError>)
    ensures
        r is Ok <==> old(buf)@.len() + chunk@.len() <= MAX_FILE_SIZE,
        r matches Err(e) ==> e is FileTooLarge && final (buf)@ == old(buf)@,
        r is Ok ==> final (buf)@ == old(buf)@ + chunk@,
{
    if buf.len() > MAX_FILE_SIZE || chunk.len() > MAX_FILE_SIZE - buf.len() {
        return Err(CreatePostError::FileTooLarge);
    }
    let ghost base = buf@;
    let mut i: usize = 0;
    while i < chunk.len()
        invariant
            i <= chunk@.len(),
            buf@ == base + chunk@.take(i as int),
        decreases chunk@.len() - i,
    {
        buf.push(chunk[i]);
        proof {
            assert(buf@ =~= base + chunk@.take(i + 1));
        }
        i = i + 1;
    }
    proof {
        assert(base + chunk@.take(chunk@.len() as int) =~= base + chunk@);
    }
    Ok(())
}

/// Records an `image` part's body once it was read: bodies above the byte
/// ceiling are rejected, an empty body counts as no upload.
pub fn apply_image_data(f: &mut RawFields, data: Vec<u8>) -> (r: Result<(), CreatePostError>)
    ensures
        data@.len() > MAX_FILE_SIZE <==> r is Err,
        r matches Err(e) ==> e is FileTooLarge && *final (f) == *old(f),
        r is Ok && data@.len() > 0 ==> (final (f).image_data matches Some(d) && d@ == data@),
        r is Ok && data@.len() == 0 ==> *final (f) == *old(f),
        final (f).text == old(f).text,
        final (f).username == old(f).username,
        final (f).user_avatar_url == old(f).user_avatar_url,
{
    if data.len() > MAX_FILE_SIZE {
        return Err(CreatePostError::FileTooLarge);
    }
    if data.len() > 0 {
        f.image_data = Some(data);
    }
    Ok(())
}

/// The error for a part that arrived without a field name.
pub fn missing_field_name_error() -> (e: CreatePostError)
    ensures
        e matches CreatePostError::ValidationError(d) && d@ == "Missing field name"@,
{
    CreatePostError::ValidationError(String::from_str("Missing field name"))
}

/// The error for malformed multipart framing at the transport level: fatal
/// and not attributable to any one field.
pub fn multipart_frame_error() -> (e: CreatePostError)
    ensures
        e is InternalError,
{
    CreatePostError::InternalError
}

/// The error for a recognized part whose body could not be read as its
/// expected shape; `detail` is the transport's message.
pub fn field_read_error(kind: FieldKind, detail: String) -> (e: CreatePostError)
    requires
        !(kind is Unknown),
    ensures
        e matches CreatePostError::ValidationError(d) && d@ == spec_field_read_prefix(kind)
            + detail@,
{
    let prefix = match kind {
        FieldKind::Text => "Invalid text field: ",
        FieldKind::Username => "Invalid username field: ",
        FieldKind::AvatarUrl => "Invalid user_avatar_url field: ",
        FieldKind::Image => "Failed to read image data: ",
        FieldKind::Unknown => "Invalid text field: ",
    };
    CreatePostError::ValidationError(String::from_str(prefix).concat(detail.as_str()))
}

/// The message prefix for each recognized field whose body failed to read.
pub open spec fn spec_field_read_prefix(kind: FieldKind) -> Seq<char> {
    match kind {
        FieldKind::Text => "Invalid text field: "@,
        FieldKind::Username => "Invalid username field: "@,
        FieldKind::AvatarUrl => "Invalid user_avatar_url field: "@,
        FieldKind::Image => "Failed to read image data: "@,
        FieldKind::Unknown => "Invalid text field: "@,
    }
}

} // verus!
