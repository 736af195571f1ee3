//! Checks on the avatar fetch's outcome. The embedding application performs
//! the single outbound GET; this module decides, from the response's status,
//! declared content type and body, whether the avatar is acceptable, and
//! hands accepted bytes to the image codec guard.

use vstd::prelude::*;
use vstd::string::StringExecFns;

use crate::domain::MAX_FILE_SIZE;
use crate::errors::CreatePostError;
use crate::image_guard::guard_image;
use crate::image_guard::png_normalizable;
use crate::image_guard::png_reencoding;
use crate::strutil::dec_str;
use crate::strutil::str_eq;
use crate::strutil::u16_to_string;

verus! {

/// A success status: the 2xx class.
pub open spec fn status_is_success(status: u16) -> bool {
    200 <= status < 300
}

/// The download-error detail for a non-success status: the numeric status
/// embedded after `HTTP `.
pub open spec fn spec_status_detail(status: u16) -> Seq<char> {
    "HTTP "@ + dec_str(status as nat)
}

/// Accepts exactly the 2xx statuses; any other answer is a download error
/// embedding the numeric status.
pub fn check_avatar_status(status: u16) -> (r: Result<(), CreatePostError>)
    ensures
        r is Ok <==> status_is_success(status),
        r matches Err(e) ==> (e matches CreatePostError::AvatarDownloadError(d) && d@
            == spec_status_detail(status)),
{
    if 200 <= status && status < 300 {
        Ok(())
    } else {
        let detail = String::from_str("HTTP ").concat(u16_to_string(status).as_str());
        Err(CreatePostError::AvatarDownloadError(detail))
    }
}

/// Accepts exactly a declared content type equal to the canonical image
/// type; a missing or different one is rejected before the body is read.
pub fn check_avatar_content_type(content_type: Option<&String>) -> (r: Result<
    (),
    CreatePostError,
>)
    ensures
        r is Ok <==> (content_type matches Some(ct) && ct@ == crate::domain::canonical_image_mime()),
        r matches Err(e) ==> (e matches CreatePostError::AvatarDownloadError(d) && d@
            == "Invalid avatar image type"@),
{
    let ok = match content_type {
        Some(ct) => str_eq(ct.as_str(), "image/png"),
        None => false,
    };
    if ok {
        Ok(())
    } else {
        Err(CreatePostError::AvatarDownloadError(String::from_str("Invalid avatar image type")))
    }
}

/// Accepts a fully read body: it must fit under the byte ceiling and pass
/// the image codec guard, which returns the canonical bytes to store.
pub fn accept_avatar_body(body: Vec<u8>) -> (r: Result<Vec<u8>, CreatePostError>)
    ensures
        body@.len() > MAX_FILE_SIZE ==> (r matches Err(e) && e is FileTooLarge),
        body@.len() <= MAX_FILE_SIZE ==> {
            &&& (r is Ok <==> png_normalizable(body@))
            &&& (r matches Ok(v) ==> v@ == png_reencoding(body@))
            &&& (r matches Err(e) ==> e is ImageError)
        },
{
    if body.len() > MAX_FILE_SIZE {
        return Err(CreatePostError::FileTooLarge);
    }
    guard_image(&body)
}

/// The whole check on one avatar response, in the order the checks run:
/// status first, then the declared content type, then the body's size, then
/// the codec guard. The first failure decides the error.
pub fn evaluate_avatar_response(status: u16, content_type: Option<&String>, body: Vec<u8>) -> (r:
    Result<Vec<u8>, CreatePostError>)
    ensures
        !status_is_success(status) ==> (r matches Err(e)
            && e matches CreatePostError::AvatarDownloadError(d) && d@ == spec_status_detail(
            status,
        )),
        status_is_success(status) && !(content_type matches Some(ct) && ct@
            == crate::domain::canonical_image_mime()) ==> (r matches Err(e)
            && e matches CreatePostError::AvatarDownloadError(d) && d@
            == "Invalid avatar image type"@),
        status_is_success(status) && (content_type matches Some(ct) && ct@
            == crate::domain::canonical_image_mime()) ==> {
            &&& (body@.len() > MAX_FILE_SIZE ==> (r matches Err(e) && e is FileTooLarge))
            &&& (body@.len() <= MAX_FILE_SIZE ==> {
                &&& (r is Ok <==> png_normalizable(body@))
                &&& (r matches Ok(v) ==> v@ == png_reencoding(body@))
                &&& (r matches Err(e) ==> e is ImageError)
            })
        },
{
    match check_avatar_status(status) {
        Ok(()) => {},
        Err(e) => {
            return Err(e);
        },
    }
    match check_avatar_content_type(content_type) {
        Ok(()) => {},
        Err(e) => {
            return Err(e);
        },
    }
    accept_avatar_body(body)
}

} // verus!
