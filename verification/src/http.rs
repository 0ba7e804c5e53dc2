//! The pieces of HTTP semantics that the services decide on: status classes
//! and the textual reading of a header value.
use vstd::prelude::*;
use crate::text::{byte_chars, string_from_bytes};

verus! {

/// Status code of a successful reply (`200 OK`).
pub const STATUS_OK: u16 = 200;
/// Status code of an accepted reply (`202 Accepted`).
pub const STATUS_ACCEPTED: u16 = 202;
/// Status code of a malformed request (`400 Bad Request`).
pub const STATUS_BAD_REQUEST: u16 = 400;
/// Status code of an unauthenticated request (`401 Unauthorized`).
pub const STATUS_UNAUTHORIZED: u16 = 401;
/// Status code of a refused request (`403 Forbidden`).
pub const STATUS_FORBIDDEN: u16 = 403;
/// Status code of a failed upstream call (`502 Bad Gateway`).
pub const STATUS_BAD_GATEWAY: u16 = 502;

/// Whether a status code lies in the success class `200..=299`.
pub open spec fn success_class(code: u16) -> bool {
    200 <= code && code <= 299
}

/// Whether a status code is a success, as `StatusCode::is_success` decides.
pub fn is_success_status(code: u16) -> (r: bool)
    ensures
        r == success_class(code),
{
    200 <= code && code <= 299
}

/// The health probe's answer: always `200 OK`.
pub fn healtz() -> (r: u16)
    ensures
        r == STATUS_OK,
{
    STATUS_OK
}

/// Whether a header byte is visible ASCII or a tab, the bytes that a header
/// value may hold to be read as text.
pub open spec fn visible_ascii(b: u8) -> bool {
    (32 <= b && b < 127) || b == 9
}

/// Whether every byte of a header value is visible ASCII or a tab.
pub open spec fn all_visible_ascii(bytes: Seq<u8>) -> bool {
    forall|i: int| 0 <= i < bytes.len() ==> visible_ascii(#[trigger] bytes[i])
}

/// The text of a header value, as `HeaderValue::to_str` gives it: `None`
/// when a byte is not visible ASCII, else the bytes read as characters.
pub open spec fn header_text_of(bytes: Seq<u8>) -> Option<Seq<char>> {
    if all_visible_ascii(bytes) {
        Some(byte_chars(bytes))
    } else {
        None
    }
}

/// Whether every byte of a header value is visible ASCII or a tab.
pub fn is_header_text(bytes: &[u8]) -> (r: bool)
    ensures
        r == all_visible_ascii(bytes@),
{
    let mut i: usize = 0;
    while i < bytes.len()
        invariant
            i <= bytes@.len(),
            forall|j: int| 0 <= j < i ==> visible_ascii(#[trigger] bytes@[j]),
        decreases bytes@.len() - i,
    {
        let b: u8 = bytes[i];
        if !((32 <= b && b < 127) || b == 9) {
            assert(!visible_ascii(bytes@[i as int]));
            return false;
        }
        i = i + 1;
    }
    true
}

/// Reads a header value as text; fails exactly where `HeaderValue::to_str` fails.
pub fn header_text(bytes: &[u8]) -> (r: Option<String>)
    ensures
        match r {
            Some(s) => header_text_of(bytes@) == Some(s@),
            None => header_text_of(bytes@) is None,
        },
{
    if is_header_text(bytes) {
        assert(bytes@.skip(0) =~= bytes@);
        Some(string_from_bytes(bytes, 0))
    } else {
        None
    }
}

} // verus!
