use vstd::prelude::*;

verus! {

/// The shape of every string that `uuid_v4_string` returns: 36 characters,
/// hyphens at positions 8, 13, 18 and 23, and the version digit `4` at 14.
pub open spec fn is_hyphenated_v4(s: Seq<char>) -> bool {
    &&& s.len() == 36
    &&& s[8] == '-'
    &&& s[13] == '-'
    &&& s[18] == '-'
    &&& s[23] == '-'
    &&& s[14] == '4'
}

/// Calls `uuid::Uuid::new_v4` and formats the result with its `Display` impl.
/// The identifier is random; the contract claims only its hyphenated shape,
/// which the crate's formatter writes for every version-4 UUID.
#[verifier::external_body]
pub(crate) fn uuid_v4_string() -> (r: String)
    ensures
        is_hyphenated_v4(r@),
{
    uuid::Uuid::new_v4().to_string()
}

} // verus!
