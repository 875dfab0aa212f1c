//! The status codes the service answers with, and the text a status is
//! displayed as.

use axum::http::StatusCode;
use vstd::prelude::*;

verus! {

/// Answer to a successful read or listing.
pub const STATUS_OK: u16 = 200;

/// Answer to a successful creation.
pub const STATUS_CREATED: u16 = 201;

/// Answer to a successful deletion.
pub const STATUS_NO_CONTENT: u16 = 204;

/// Answer to a listing that names no filter, where one is demanded.
pub const STATUS_BAD_REQUEST: u16 = 400;

/// Answer to a request for an identifier that does not exist.
pub const STATUS_NOT_FOUND: u16 = 404;

/// Answer to a request that breaks a structural or referential rule.
pub const STATUS_UNPROCESSABLE_ENTITY: u16 = 422;

/// Answer to a request the storage could not complete.
pub const STATUS_INTERNAL_SERVER_ERROR: u16 = 500;

/// Answer to a health probe while a critical service is down.
pub const STATUS_SERVICE_UNAVAILABLE: u16 = 503;

/// The text a status is displayed as: its number, a space, and its
/// standard reason phrase.
pub uninterp spec fn status_line(status: u16) -> Seq<char>;

/// Formats a status with `http::StatusCode::from_u16` and the `Display`
/// of `http::StatusCode`. `from_u16` accepts exactly the numbers from 100
/// to 999; the text that `Display` writes for an accepted number depends
/// on the number alone and is what `status_line` names. For the two
/// statuses that failures without detail are answered with, the text is
/// spelled out: the number, a space, and the reason phrase that the
/// table of `http` holds for it.
#[verifier::external_body]
pub(crate) fn status_text(status: u16) -> (text: Option<String>)
    ensures
        text is Some <==> 100 <= status <= 999,
        text matches Some(line) ==> line@ == status_line(status),
        text matches Some(line) ==> (status == STATUS_NOT_FOUND ==> line@ == "404 Not Found"@),
        text matches Some(line) ==> (status == STATUS_INTERNAL_SERVER_ERROR ==> line@
            == "500 Internal Server Error"@),
{
    match StatusCode::from_u16(status) {
        Ok(code) => Some(code.to_string()),
        Err(_) => None,
    }
}

} // verus!
