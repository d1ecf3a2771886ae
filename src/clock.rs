//! The current time, as RFC 3339 text.
use vstd::prelude::*;

use crate::keys::{free_of_separator, KEY_SEPARATOR};

verus! {

/// A character that an RFC 3339 timestamp in a fixed offset may hold.
pub open spec fn is_timestamp_char(c: char) -> bool {
    ('0' <= c && c <= '9') || c == '-' || c == '+' || c == 'T' || c == ':' || c == '.'
}

/// Every character of `s` may stand in an RFC 3339 timestamp.
pub open spec fn is_timestamp_text(s: Seq<char>) -> bool {
    forall|i: int| 0 <= i < s.len() ==> is_timestamp_char(#[trigger] s[i])
}

/// A timestamp never holds the key separator.
pub proof fn lemma_timestamp_free_of_separator(s: Seq<char>)
    requires
        is_timestamp_text(s),
    ensures
        free_of_separator(s),
{
    assert forall|i: int| 0 <= i < s.len() implies s[i] != KEY_SEPARATOR by {
        assert(is_timestamp_char(s[i]));
    }
}

/// Relies on chrono's `Utc::now` for the time and `DateTime::to_rfc3339` to
/// write it: the year, month, day, hours, minutes, seconds, optional fraction
/// and the `+00:00` offset are written with ASCII digits, `-`, `+`, `T`, `:`
/// and `.` alone.
#[verifier::external_body]
pub(crate) fn utc_now_rfc3339() -> (r: String)
    ensures
        is_timestamp_text(r@),
{
    chrono::Utc::now().to_rfc3339()
}

} // verus!
