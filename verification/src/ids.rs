//! Fresh identifiers and timestamps for ledger and configuration rows.
use vstd::prelude::*;

verus! {

use crate::text::push_char;

pub open spec fn is_hex_lower(c: char) -> bool {
    ('0' <= c && c <= '9') || ('a' <= c && c <= 'f')
}

/// Relies on uuid::Uuid::new_v4 and its Display form: a fresh random
/// identifier rendered hyphenated as 36 characters, lower-case hex digits
/// with hyphens at positions 8, 13, 18 and 23. The value itself is random;
/// nothing is assumed beyond that shape.
#[verifier::external_body]
pub(crate) fn fresh_uuid() -> (r: String)
    ensures
        r@.len() == 36,
        r.is_ascii(),
        r@[8] == '-' && r@[13] == '-' && r@[18] == '-' && r@[23] == '-',
        forall|i: int|
            0 <= i < 36 && i != 8 && i != 13 && i != 18 && i != 23 ==> is_hex_lower(#[trigger] r@[i]),
{
    uuid::Uuid::new_v4().to_string()
}

/// Relies on chrono::Utc::now and DateTime::to_rfc3339 for row timestamps;
/// the clock's value is outside the library's contracts, so nothing is
/// assumed of the result.
#[verifier::external_body]
pub(crate) fn now_rfc3339() -> String {
    chrono::Utc::now().to_rfc3339()
}

/// A fresh row identifier: the prefix, an underscore, and the 32 hex digits
/// of a new identifier with the hyphens removed.
pub fn generate_id(prefix: &str) -> (r: String)
    ensures
        r@.len() == prefix@.len() + 33,
        r@.subrange(0, prefix@.len() as int) == prefix@,
        r@[prefix@.len() as int] == '_',
        forall|i: int| prefix@.len() + 1 <= i < r@.len() ==> is_hex_lower(#[trigger] r@[i]),
{
    let u = fresh_uuid();
    let us = u.as_str();
    let mut s = String::new();
    s.append(prefix);
    push_char(&mut s, '_');
    s.append(us.substring_ascii(0, 8));
    s.append(us.substring_ascii(9, 13));
    s.append(us.substring_ascii(14, 18));
    s.append(us.substring_ascii(19, 23));
    s.append(us.substring_ascii(24, 36));
    proof {
        assert(s@.subrange(0, prefix@.len() as int) =~= prefix@);
    }
    s
}

} // verus!
