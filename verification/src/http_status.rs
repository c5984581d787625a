//! The status of an HTTP answer.
use vstd::prelude::*;
use vstd::string::*;

use crate::text::decimal;

verus! {

/// A status of an HTTP answer.
pub open spec fn is_status(status: u16) -> bool {
    100 <= status <= 999
}

/// A status of success.
pub open spec fn is_success(status: u16) -> bool {
    200 <= status < 300
}

/// The reason that `http::StatusCode` knows for a status.
pub uninterp spec fn reason_phrase(status: u16) -> Seq<char>;

/// A status with its reason.
pub open spec fn status_line(status: u16) -> Seq<char> {
    decimal(status as nat) + " "@ + reason_phrase(status)
}

/// `http::StatusCode`'s `Display`: the number of a status in decimal, a space
/// and its reason. The reason depends on the number alone and is named
/// `reason_phrase`.
#[verifier::external_body]
pub(crate) fn status_text(status: u16) -> (r: String)
    requires
        is_status(status),
    ensures
        r@ == decimal(status as nat) + " "@ + reason_phrase(status),
{
    http::StatusCode::from_u16(status).map_or(String::new(), |s| s.to_string())
}

} // verus!
