//! Identifiers of volunteers, tasks and matches: a prefix and the first eight
//! hexadecimal digits of a random UUID, upper-cased.
use vstd::prelude::*;
use crate::text::{prefixed_upper, upper_ascii, upper_ascii_text};

verus! {

pub open spec fn is_lower_hex_digit(c: char) -> bool {
    ('0' <= c && c <= '9') || ('a' <= c && c <= 'f')
}

pub open spec fn is_upper_hex_digit(c: char) -> bool {
    ('0' <= c && c <= '9') || ('A' <= c && c <= 'F')
}

/// The hyphenated lower-case text of a UUID: 8-4-4-4-12 hexadecimal digits.
pub open spec fn hyphenated_uuid_text(s: Seq<char>) -> bool {
    &&& s.len() == 36
    &&& forall|i: int|
        0 <= i < 36 ==> if i == 8 || i == 13 || i == 18 || i == 23 {
            #[trigger] s[i] == '-'
        } else {
            is_lower_hex_digit(s[i])
        }
}

/// The identifier made of `prefix` and the first eight characters of
/// `source`, upper-cased.
pub open spec fn short_identifier(prefix: Seq<char>, source: Seq<char>) -> Seq<char> {
    prefix + upper_ascii_text(source.take(8))
}

/// `id` is `prefix` followed by exactly eight upper-case hexadecimal digits.
pub open spec fn identifier_shape(prefix: Seq<char>, id: Seq<char>) -> bool {
    &&& id.len() == prefix.len() + 8
    &&& id.take(prefix.len() as int) == prefix
    &&& forall|i: int|
        prefix.len() <= i < id.len() ==> is_upper_hex_digit(#[trigger] id[i])
}

/// The text of a fresh random (version 4) UUID, from `uuid::Uuid::new_v4`
/// written with its `Display` impl. Claimed: the text is hyphenated
/// lower-case hexadecimal, 36 characters long.
#[verifier::external_body]
pub(crate) fn random_uuid_text() -> (s: String)
    ensures
        hyphenated_uuid_text(s@),
{
    uuid::Uuid::new_v4().to_string()
}

/// The identifier `prefix` + the first eight characters of `source`,
/// upper-cased, for a UUID text `source`.
pub fn identifier_from(prefix: &str, source: &str) -> (id: String)
    requires
        hyphenated_uuid_text(source@),
    ensures
        id@ == short_identifier(prefix@, source@),
        identifier_shape(prefix@, id@),
{
    let id = prefixed_upper(prefix, source, 8);
    assert(id@.take(prefix@.len() as int) =~= prefix@);
    assert forall|i: int| prefix@.len() <= i < id@.len() implies is_upper_hex_digit(
        #[trigger] id@[i],
    ) by {
        let k: int = i - prefix@.len();
        assert(source@[k] == source@.take(8)[k]);
        assert(id@[i] == upper_ascii(source@[k]));
        assert(is_lower_hex_digit(source@[k]));
    }
    id
}

/// A fresh identifier: `prefix` and eight upper-case hexadecimal digits taken
/// from a random UUID.
pub fn new_identifier(prefix: &str) -> (id: String)
    ensures
        identifier_shape(prefix@, id@),
{
    let source = random_uuid_text();
    identifier_from(prefix, source.as_str())
}

/// A fresh message id: the hyphenated text of a random UUID.
pub fn new_message_id() -> (id: String)
    ensures
        hyphenated_uuid_text(id@),
{
    random_uuid_text()
}

} // verus!
