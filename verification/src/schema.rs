use vstd::prelude::*;

verus! {

/// The well-known key of the singleton remote-head metadata row, as a
/// sequence of characters.
pub open spec fn spec_remote_head_key() -> Seq<char> {
    "remote_head"@
}

/// The well-known key of the singleton remote-head metadata row.
pub fn remote_head_key() -> (r: &'static str)
    ensures
        r@ == spec_remote_head_key(),
{
    "remote_head"
}

} // verus!
