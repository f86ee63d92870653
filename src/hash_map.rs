use vstd::prelude::*;

verus! {

/// The pieces of `s` that runs of whitespace separate, in order, with no
/// empty piece.
pub uninterp spec fn whitespace_words(s: Seq<char>) -> Seq<Seq<char>>;

/// Relies on `str::split_whitespace`: it yields the pieces of the text that
/// runs of whitespace separate, in order; each piece is copied into a
/// `String`.
#[verifier::external_body]
fn split_whitespace(text: &str) -> (r: Vec<String>)
    ensures
        r@.map_values(|w: String| w@) == whitespace_words(text@),
{
    text.split_whitespace().map(|w| w.to_string()).collect()
}

/// How often `w` occurs in `ws`.
pub open spec fn occurrences(ws: Seq<Seq<char>>, w: Seq<char>) -> nat
    decreases ws.len(),
{
    if ws.len() == 0 {
        0
    } else {
        occurrences(ws.drop_last(), w) + if ws.last() == w {
            1nat
        } else {
            0nat
        }
    }
}

/// The distinct words of `ws`, each once, in the order of their first
/// occurrence.
pub open spec fn distinct_words(ws: Seq<Seq<char>>) -> Seq<Seq<char>>
    decreases ws.len(),
{
    if ws.len() == 0 {
        Seq::empty()
    } else {
        let earlier = distinct_words(ws.drop_last());
        if earlier.contains(ws.last()) {
            earlier
        } else {
            earlier.push(ws.last())
        }
    }
}

/// Each distinct word of `ws`, in the order of its first occurrence, with
/// the number of times it occurs.
pub open spec fn tally(ws: Seq<Seq<char>>) -> Seq<(Seq<char>, nat)> {
    distinct_words(ws).map_values(|w: Seq<char>| (w, occurrences(ws, w)))
}

/// The words of a vector of strings.
pub open spec fn words_view(words: Seq<String>) -> Seq<Seq<char>> {
    words.map_values(|w: String| w@)
}

/// The words and counts of a vector of counted words.
pub open spec fn counts_view(counts: Seq<(String, usize)>) -> Seq<(Seq<char>, nat)> {
    counts.map_values(|p: (String, usize)| (p.0@, p.1 as nat))
}

/// Each word of `ws` appears exactly once among its distinct words.
pub proof fn lemma_distinct_words(ws: Seq<Seq<char>>)
    ensures
        distinct_words(ws).no_duplicates(),
        forall|w: Seq<char>| distinct_words(ws).contains(w) <==> ws.contains(w),
    decreases ws.len(),
{
    if ws.len() > 0 {
        let rest = ws.drop_last();
        lemma_distinct_words(rest);
        assert forall|w: Seq<char>| ws.contains(w) <==> (rest.contains(w) || w == ws.last()) by {
            if ws.contains(w) {
                let k = choose|k: int| 0 <= k < ws.len() && ws[k] == w;
                if k < ws.len() - 1 {
                    assert(rest[k] == w);
                }
            }
            if rest.contains(w) {
                let k = choose|k: int| 0 <= k < rest.len() && rest[k] == w;
                assert(ws[k] == w);
            }
            if w == ws.last() {
                assert(ws[ws.len() - 1] == w);
            }
        }
        let earlier = distinct_words(rest);
        if !earlier.contains(ws.last()) {
            assert forall|w: Seq<char>| earlier.push(ws.last()).contains(w) <==> (
            earlier.contains(w) || w == ws.last()) by {
                if earlier.push(ws.last()).contains(w) {
                    let k = choose|k: int|
                        0 <= k < earlier.len() + 1 && earlier.push(ws.last())[k] == w;
                    if k < earlier.len() {
                        assert(earlier[k] == w);
                    }
                }
                if earlier.contains(w) {
                    let k = choose|k: int| 0 <= k < earlier.len() && earlier[k] == w;
                    assert(earlier.push(ws.last())[k] == w);
                }
                if w == ws.last() {
                    assert(earlier.push(ws.last())[earlier.len() as int] == w);
                }
            }
        }
    }
}

/// A word that does not occur in `ws` is counted zero times.
pub proof fn lemma_occurrences_absent(ws: Seq<Seq<char>>, w: Seq<char>)
    requires
        !ws.contains(w),
    ensures
        occurrences(ws, w) == 0,
    decreases ws.len(),
{
    if ws.len() > 0 {
        let rest = ws.drop_last();
        assert(ws[ws.len() - 1] == ws.last());
        assert forall|k: int| 0 <= k < rest.len() implies rest[k] != w by {
            assert(ws[k] == rest[k]);
        }
        lemma_occurrences_absent(rest, w);
    }
}

proof fn lemma_occurrences_bound(ws: Seq<Seq<char>>, w: Seq<char>)
    ensures
        occurrences(ws, w) <= ws.len(),
    decreases ws.len(),
{
    if ws.len() > 0 {
        lemma_occurrences_bound(ws.drop_last(), w);
    }
}

/// Counts each distinct word of `words`: the result lists the words in the
/// order in which they first occur, each once, with its number of
/// occurrences.
pub fn count_words(words: &Vec<String>) -> (r: Vec<(String, usize)>)
    ensures
        counts_view(r@) == tally(words_view(words@)),
{
    let ghost ws = words_view(words@);
    let mut counts: Vec<(String, usize)> = Vec::new();
    for i in 0..words.len()
        invariant
            ws == words_view(words@),
            counts_view(counts@) == tally(ws.take(i as int)),
    {
        let ghost before = ws.take(i as int);
        let ghost after = ws.take(i + 1);
        let ghost x = words@[i as int]@;
        proof {
            assert(after.drop_last() =~= before);
            assert(after.last() == x);
            lemma_occurrences_bound(after, x);
            lemma_distinct_words(before);
        }
        let w = &words[i];
        let mut j: usize = 0;
        let mut found = false;
        while j < counts.len()
            invariant_except_break
                !found,
            invariant
                j <= counts.len(),
                forall|k: int| 0 <= k < j ==> counts@[k].0@ != w@,
            ensures
                j <= counts.len(),
                forall|k: int| 0 <= k < j ==> counts@[k].0@ != w@,
                found ==> j < counts.len() && counts@[j as int].0@ == w@,
                !found ==> j == counts.len(),
            decreases counts.len() - j,
        {
            if counts[j].0 == *w {
                found = true;
                break;
            }
            j = j + 1;
        }
        let ghost old_counts = counts@;
        proof {
            let d = distinct_words(before);
            assert(counts_view(counts@).len() == tally(before).len());
            assert forall|k: int| 0 <= k < d.len() implies counts@[k].0@ == d[k] && counts@[k].1
                == occurrences(before, d[k]) by {
                assert(counts_view(counts@)[k] == tally(before)[k]);
            }
        }
        if found {
            proof {
                assert(w@ == x);
                assert(distinct_words(before)[j as int] == x);
                assert(occurrences(after, x) == occurrences(before, x) + 1);
                assert(after.len() == i + 1);
            }
            counts[j].1 = counts[j].1 + 1;
            proof {
                let d = distinct_words(before);
                assert(d[j as int] == x);
                assert(d.contains(x));
                assert(distinct_words(after) == d);
                assert forall|k: int| 0 <= k < d.len() && k != j implies d[k] != x by {
                    assert(d[k] != d[j as int]);
                }
                assert(counts_view(counts@) =~= tally(after));
            }
        } else {
            counts.push((w.clone(), 1));
            proof {
                let d = distinct_words(before);
                assert(j == old_counts.len());
                assert(w@ == x);
                assert forall|k: int| 0 <= k < d.len() implies d[k] != x by {
                    assert(old_counts[k].0@ == d[k]);
                }
                assert(!d.contains(x));
                assert(!before.contains(x));
                lemma_occurrences_absent(before, x);
                assert(distinct_words(after) == d.push(x));
                assert(counts_view(counts@) =~= tally(after));
            }
        }
    }
    proof {
        assert(ws.take(words@.len() as int) == ws);
    }
    counts
}

/// Counts the words of `text`, the pieces that whitespace separates: each
/// distinct word once, in the order in which it first occurs, with its
/// number of occurrences.
pub fn word_counts(text: &str) -> (r: Vec<(String, usize)>)
    ensures
        counts_view(r@) == tally(whitespace_words(text@)),
{
    let words = split_whitespace(text);
    count_words(&words)
}

} // verus!
