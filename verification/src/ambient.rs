//! What the service takes from its surroundings: a fresh identifier and the
//! current time. Nothing here is proved; the contracts say what the two
//! outside functions are trusted to give.

use vstd::prelude::*;
use crate::model::Timestamp;

verus! {

/// `c` is a decimal digit or one of the letters `a` to `f`.
pub open spec fn is_lower_hex(c: char) -> bool {
    ('0' <= c && c <= '9') || ('a' <= c && c <= 'f')
}

/// `id` has the hyphenated form of a UUID: 36 characters, hyphens after the
/// groups of 8, 4, 4 and 4 digits, and lower-case hexadecimal digits
/// elsewhere.
pub open spec fn is_hyphenated(id: Seq<char>) -> bool {
    &&& id.len() == 36
    &&& forall|i: int|
        #![trigger id[i]]
        0 <= i < 36 ==> if i == 8 || i == 13 || i == 18 || i == 23 {
            id[i] == '-'
        } else {
            is_lower_hex(id[i])
        }
}

/// `t` is a time at or after 1970-01-01T00:00:00Z whose nanoseconds stay
/// below one second.
pub open spec fn is_clock_reading(t: Timestamp) -> bool {
    t.secs >= 0 && t.nanos < 1_000_000_000
}

/// A random identifier: `uuid::Uuid::new_v4`, written out by the `Display`
/// of `Uuid`. Trusted: the text has the hyphenated lower-case form, and its
/// version digit is `4`. Nothing is claimed about which identifier comes out;
/// in particular two calls may give the same one.
#[verifier::external_body]
pub(crate) fn new_id() -> (id: String)
    ensures
        is_hyphenated(id@),
        id@[14] == '4',
{
    uuid::Uuid::new_v4().to_string()
}

/// The current time: `chrono::Utc::now`, taken apart by
/// `DateTime::timestamp` and `DateTime::timestamp_subsec_nanos`. Trusted: the
/// reading is not before 1970 and its nanoseconds are below one second.
/// Nothing is claimed about how two readings compare.
#[verifier::external_body]
pub(crate) fn now() -> (t: Timestamp)
    ensures
        is_clock_reading(t),
{
    let t = chrono::Utc::now();
    Timestamp { secs: t.timestamp(), nanos: t.timestamp_subsec_nanos() }
}

} // verus!
