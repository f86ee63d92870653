use vstd::prelude::*;

verus! {

/// The three words joined by hyphens: `tic-tac-toe`.
pub open spec fn hyphenated(a: Seq<char>, b: Seq<char>, c: Seq<char>) -> Seq<char> {
    a + "-"@ + b + "-"@ + c
}

/// Joins three words with a hyphen between each two.
pub fn join_with_hyphens(a: &str, b: &str, c: &str) -> (r: String)
    ensures
        r@ == hyphenated(a@, b@, c@),
{
    let mut s = a.to_string();
    s.append("-");
    s.append(b);
    s.append("-");
    s.append(c);
    s
}

} // verus!
