use vstd::prelude::*;
use vstd::utf8::encode_utf8;

verus! {

/// The position of the first `x` in `s` at or after `from`, or the length of
/// `s` when no `x` follows.
pub open spec fn position_from<A>(s: Seq<A>, x: A, from: int) -> int
    decreases s.len() - from,
{
    if from < 0 || from >= s.len() {
        s.len() as int
    } else if s[from] == x {
        from
    } else {
        position_from(s, x, from + 1)
    }
}

/// A search that starts inside `s` ends inside it or at its end.
pub proof fn lemma_position_from_bounds<A>(s: Seq<A>, x: A, from: int)
    requires
        0 <= from <= s.len(),
    ensures
        from <= position_from(s, x, from) <= s.len(),
        position_from(s, x, from) < s.len() ==> s[position_from(s, x, from)] == x,
    decreases s.len() - from,
{
    if from < s.len() && s[from] != x {
        lemma_position_from_bounds(s, x, from + 1);
    }
}

/// The characters of `s` before its first space: all of `s` when it holds
/// none.
pub open spec fn first_word_of(s: Seq<char>) -> Seq<char> {
    s.subrange(0, position_from(s, ' ', 0))
}

/// The characters between the first and the second space of `s`, or from
/// the first space to the end when there is only one; empty when `s` holds
/// no space.
pub open spec fn second_word_of(s: Seq<char>) -> Seq<char> {
    let first_end = position_from(s, ' ', 0);
    if first_end == s.len() {
        Seq::empty()
    } else {
        s.subrange(first_end + 1, position_from(s, ' ', first_end + 1))
    }
}

/// The byte that encodes a space.
pub const SPACE_BYTE: u8 = 32;

/// Finds the first space of `s` at or after character `from`.
fn find_space(s: &str, from: usize) -> (r: usize)
    requires
        from <= s@.len(),
    ensures
        r == position_from(s@, ' ', from as int),
        from <= r <= s@.len(),
{
    proof {
        lemma_position_from_bounds(s@, ' ', from as int);
    }
    let n = s.unicode_len();
    let mut i: usize = 0;
    for c in it: s.chars()
        invariant
            n == s@.len(),
            from <= n,
            i == it.index(),
            it.seq() == s@,
            from <= i ==> position_from(s@, ' ', from as int) == position_from(
                s@,
                ' ',
                i as int,
            ),
    {
        if i >= from && c == ' ' {
            return i;
        }
        i = i + 1;
    }
    n
}

/// Returns the first word of `s`: the part before its first space, or all of
/// `s` when it has none.
pub fn first_word_final(s: &str) -> (r: &str)
    ensures
        r@ == first_word_of(s@),
{
    let end = find_space(s, 0);
    s.substring_char(0, end)
}

/// Returns the first word of `s`, as `first_word_final` does for a `&str`.
pub fn first_word(s: &String) -> (r: &str)
    ensures
        r@ == first_word_of(s@),
{
    first_word_final(s.as_str())
}

/// Returns the second word of `s`: what lies between its first and second
/// spaces, or after the first space when there is no second; empty when `s`
/// holds no space.
pub fn second_word(s: &String) -> (r: &str)
    ensures
        r@ == second_word_of(s@),
{
    let t = s.as_str();
    let n = t.unicode_len();
    let first_end = find_space(t, 0);
    if first_end == n {
        proof {
            reveal_strlit("");
        }
        return "";
    }
    let second_end = find_space(t, first_end + 1);
    t.substring_char(first_end + 1, second_end)
}

/// Returns the byte offset of the first space in `s`, or its length in bytes
/// when it holds none.
pub fn first_word_without_slice(s: &String) -> (r: usize)
    ensures
        r == position_from(encode_utf8(s@), SPACE_BYTE, 0),
{
    let bytes = s.as_str().as_bytes();
    let mut i: usize = 0;
    while i < bytes.len()
        invariant
            i <= bytes@.len(),
            bytes@ == encode_utf8(s@),
            position_from(bytes@, SPACE_BYTE, 0) == position_from(bytes@, SPACE_BYTE, i as int),
        decreases bytes@.len() - i,
    {
        if bytes[i] == SPACE_BYTE {
            return i;
        }
        i = i + 1;
    }
    i
}

} // verus!
