use vstd::prelude::*;

verus! {

/// Whether `c` is a lower-case hexadecimal digit.
pub open spec fn is_lower_hex(c: char) -> bool {
    ('0' <= c && c <= '9') || ('a' <= c && c <= 'f')
}

/// A block identity: 32 lower-case hexadecimal digits.
pub open spec fn is_identity(s: Seq<char>) -> bool {
    &&& s.len() == 32
    &&& forall|i: int| 0 <= i < s.len() ==> is_lower_hex(#[trigger] s[i])
}

/// Relies on uuid::Uuid::new_v4 and its `simple` format: a random version 4
/// UUID written as 32 lower-case hexadecimal digits without hyphens.
#[verifier::external_body]
pub(crate) fn fresh_identity() -> (r: String)
    ensures
        is_identity(r@),
{
    uuid::Uuid::new_v4().simple().to_string()
}

} // verus!
