//! The two services the model draws on: fresh identifiers and the wall clock.
//!
//! Both are calls into other crates. Their contracts are believed, not proved; each says
//! below what it takes for granted.

use chrono::NaiveDateTime;
use vstd::prelude::*;

verus! {

/// `chrono::NaiveDateTime`: a civil date and time with no offset attached. The model stores
/// and hands on such values without ever looking inside one, so the type is left opaque.
#[verifier::external_type_specification]
#[verifier::external_body]
pub struct ExNaiveDateTime(NaiveDateTime);

/// A digit `0`-`9` or a letter `a`-`f`.
pub open spec fn is_lower_hex(c: char) -> bool {
    ('0' <= c && c <= '9') || ('a' <= c && c <= 'f')
}

/// The text of a random (version 4) UUID in its usual hyphenated form, such as
/// `67e55044-10b1-426f-9247-bb680e5fe0c8`: 36 characters, hyphens closing the groups of
/// 8, 4, 4 and 4 digits, lower-case hexadecimal digits everywhere else, the version digit
/// `4` opening the third group and a variant digit `8`, `9`, `a` or `b` opening the fourth.
pub open spec fn is_uuid_text(s: Seq<char>) -> bool {
    &&& s.len() == 36
    &&& forall|i: int|
        #![trigger s[i]]
        0 <= i < 36 ==> if i == 8 || i == 13 || i == 18 || i == 23 {
            s[i] == '-'
        } else {
            is_lower_hex(s[i])
        }
    &&& s[14] == '4'
    &&& (s[19] == '8' || s[19] == '9' || s[19] == 'a' || s[19] == 'b')
}

/// A fresh identifier: `uuid::Uuid::new_v4`, written out through the `Display` impl of
/// `Uuid`.
///
/// Trusted: the text has the shape [`is_uuid_text`]. `new_v4` sets the version and variant
/// bits of 128 random bits, and `Display` prints the lower-case hyphenated form. That two
/// calls give different texts rests on the operating system's random source and is not
/// claimed here. The call panics if that source cannot be read.
#[verifier::external_body]
pub(crate) fn uuid_gen() -> (id: String)
    ensures
        is_uuid_text(id@),
{
    uuid::Uuid::new_v4().to_string()
}

/// The current civil time in UTC: `chrono::Utc::now`, with the offset dropped by
/// `DateTime::naive_utc`.
///
/// Trusted, and nothing is claimed of the value: it is whatever the system clock says.
/// The call panics if that clock is set before 1970.
#[verifier::external_body]
pub(crate) fn utc_now() -> (now: NaiveDateTime) {
    chrono::Utc::now().naive_utc()
}

} // verus!
