//! The library's only trusted calls into outside code.
//!
//! Each function here is believed, not verified: its contract states what
//! the called function's source or documentation promises, and nothing
//! else in the crate is taken on trust.

use vstd::prelude::*;
use vstd::utf8::{decode_utf8, valid_utf8};

verus! {

/// The text that `humantime` renders for a duration of `secs` whole
/// seconds. The rendering depends on the seconds alone, so it is only
/// named here, never spelled out.
pub uninterp spec fn human_duration_of(secs: u64) -> Seq<char>;

/// Relies on `humantime::format_duration`: the rendered text is a pure
/// function of the duration, here always a whole number of seconds.
#[verifier::external_body]
pub(crate) fn format_duration_secs(secs: u64) -> (r: String)
    ensures
        r@ == human_duration_of(secs),
{
    humantime::format_duration(std::time::Duration::from_secs(secs)).to_string()
}

/// Relies on `String::from_utf8`: it succeeds exactly on valid UTF-8
/// input, and then returns the string those bytes encode.
#[verifier::external_body]
pub(crate) fn string_from_utf8(bytes: Vec<u8>) -> (r: Option<String>)
    ensures
        r is Some <==> valid_utf8(bytes@),
        r matches Some(s) ==> s@ == decode_utf8(bytes@),
{
    match String::from_utf8(bytes) {
        Ok(s) => Some(s),
        Err(_) => None,
    }
}

} // verus!
