use vstd::prelude::*;
use vstd::utf8::encode_utf8;

verus! {

/// The number of bytes that `s` takes in UTF-8.
pub open spec fn byte_len(s: Seq<char>) -> nat {
    encode_utf8(s).len()
}

/// Returns five.
pub fn five() -> (r: i32)
    ensures
        r == 5,
{
    5
}

/// Returns a new string that the caller then owns.
pub fn gives_ownership() -> (r: String)
    ensures
        r@ == "yours"@,
{
    "yours".to_string()
}

/// Takes ownership of a string and hands it back unchanged.
pub fn takes_and_gives_back(a_string: String) -> (r: String)
    ensures
        r@ == a_string@,
{
    a_string
}

/// Takes ownership of a string and hands it back together with its length
/// in bytes.
pub fn calculate_length(s: String) -> (r: (String, usize))
    ensures
        r.0@ == s@,
        r.1 == byte_len(s@),
{
    let length = s.as_str().as_bytes().len();
    (s, length)
}

} // verus!
