use vstd::prelude::*;

verus! {

/// A lower-case hexadecimal digit.
pub open spec fn is_lower_hex(c: char) -> bool {
    ('0' <= c && c <= '9') || ('a' <= c && c <= 'f')
}

/// The text of a random (version 4, RFC 9562 variant) UUID in the simple form:
/// 32 lower-case hexadecimal digits without hyphens, the version digit `4` at
/// position 12 and a variant digit among `8`, `9`, `a`, `b` at position 16.
pub open spec fn is_simple_v4_uuid(s: Seq<char>) -> bool {
    &&& s.len() == 32
    &&& forall|i: int| 0 <= i < 32 ==> #[trigger] is_lower_hex(s[i])
    &&& s[12] == '4'
    &&& (s[16] == '8' || s[16] == '9' || s[16] == 'a' || s[16] == 'b')
}

/// Draws a fresh row identifier: `uuid::Uuid::new_v4()` rendered by
/// `Uuid::as_simple` and `to_string`. The crate masks in the version and variant
/// bits and writes the 16 bytes big-endian as lower-case hex; this contract
/// states that form and nothing about which value comes out, which is random.
#[verifier::external_body]
pub(crate) fn new_row_id() -> (id: String)
    ensures
        is_simple_v4_uuid(id@),
{
    uuid::Uuid::new_v4().as_simple().to_string()
}

} // verus!
