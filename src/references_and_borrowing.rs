use vstd::prelude::*;
use crate::ownership::byte_len;

verus! {

/// The text that `change` appends.
pub open spec fn greeting_suffix() -> Seq<char> {
    ", world!"@
}

/// Returns the length in bytes of a borrowed string.
pub fn calculate_length(s: &String) -> (r: usize)
    ensures
        r == byte_len(s@),
{
    s.as_str().as_bytes().len()
}

/// Appends ", world!" to the string behind the mutable borrow.
pub fn change(some_string: &mut String)
    ensures
        final(some_string)@ == old(some_string)@ + greeting_suffix(),
{
    some_string.append(", world!");
}

} // verus!
