//! What only the machine can tell: the clock and fresh random identifiers.
use vstd::prelude::*;

verus! {

/// A lower-case hexadecimal digit.
pub open spec fn is_lower_hex(c: char) -> bool {
    ('0' <= c && c <= '9') || ('a' <= c && c <= 'f')
}

/// The hyphenated form of a version 4 UUID: 8-4-4-4-12 lower-case
/// hexadecimal digits, the version digit `4`, the variant digit one of
/// `8`, `9`, `a`, `b`.
pub open spec fn is_hyphenated_uuid(s: Seq<char>) -> bool {
    &&& s.len() == 36
    &&& s[14] == '4'
    &&& (s[19] == '8' || s[19] == '9' || s[19] == 'a' || s[19] == 'b')
    &&& forall|i: int|
        0 <= i < 36 ==> if i == 8 || i == 13 || i == 18 || i == 23 {
            s[i] == '-'
        } else {
            is_lower_hex(#[trigger] s[i])
        }
}

/// An instant: whole seconds since the Unix epoch, and the nanoseconds
/// within that second.
#[derive(Clone, Copy, Debug, PartialEq, Eq)]
pub struct Timestamp {
    pub secs: i64,
    pub nanos: u32,
}

/// Calls `chrono::Utc::now()` and takes its `timestamp()` and
/// `timestamp_subsec_nanos()`: the current instant. The value rests on the
/// machine's clock, so nothing is said of it.
#[verifier::external_body]
pub(crate) fn now() -> (t: Timestamp) {
    let t = chrono::Utc::now();
    Timestamp { secs: t.timestamp(), nanos: t.timestamp_subsec_nanos() }
}

/// Calls `uuid::Uuid::new_v4()` and writes it with `to_string()`: a random
/// identifier. Of every outcome the contract claims only the hyphenated
/// lower-case form that uuid's `Display` writes, with the version and
/// variant digits that `new_v4` sets.
#[verifier::external_body]
pub(crate) fn new_uuid() -> (id: String)
    ensures
        is_hyphenated_uuid(id@),
{
    uuid::Uuid::new_v4().to_string()
}

} // verus!
