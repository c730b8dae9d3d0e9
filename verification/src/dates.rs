//! Time in the answers of the API is always RFC 3339 in UTC: turning it into
//! local time is the browser's work, the server does not know the user's
//! time zone.
use vstd::prelude::*;

use crate::crypto::{format_rfc3339, rfc3339_text};

verus! {

/// The RFC 3339 text of an instant, or the empty text when it cannot be
/// formatted.
pub open spec fn rfc3339_or_empty(unix_nanos: int) -> Seq<char> {
    match rfc3339_text(unix_nanos) {
        Some(s) => s,
        None => Seq::<char>::empty(),
    }
}

/// The instant `unix_nanos` nanoseconds after the epoch as RFC 3339 in UTC.
pub fn rfc3339(unix_nanos: i128) -> (r: String)
    ensures
        r@ == rfc3339_or_empty(unix_nanos as int),
{
    match format_rfc3339(unix_nanos) {
        Some(s) => s,
        None => String::new(),
    }
}

} // verus!
