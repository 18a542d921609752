use vstd::prelude::*;

verus! {

/// The shape of a random identifier as it is written: 36 characters in five
/// groups parted by hyphens, the third group beginning with the version, 4.
pub open spec fn is_random_id(id: Seq<char>) -> bool {
    &&& id.len() == 36
    &&& id[8] == '-'
    &&& id[13] == '-'
    &&& id[18] == '-'
    &&& id[23] == '-'
    &&& id[14] == '4'
}

/// Draws a random identifier with `uuid::Uuid::new_v4` and writes it with its
/// `Display` form, which is the lower-case hyphenated one. Which identifier
/// comes is left open; the contract states the shape that every one of them
/// has. The call stops the program where the system cannot supply random
/// bytes.
#[verifier::external_body]
pub(crate) fn fresh_id() -> (id: String)
    ensures
        is_random_id(id@),
{
    uuid::Uuid::new_v4().to_string()
}

} // verus!
