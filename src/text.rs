//! Character sequences and phrase search.

use vstd::prelude::*;
use vstd::std_specs::iter::IteratorSpec;

verus! {

broadcast use {vstd::string::axiom_spec_iter, vstd::string::next_postcondition};

/// `phrase` occurs in `text` as a run of consecutive characters.
pub open spec fn contains_phrase(text: Seq<char>, phrase: Seq<char>) -> bool {
    exists|i: int|
        0 <= i && i + phrase.len() <= text.len() && #[trigger] text.subrange(i, i + phrase.len())
            == phrase
}

/// The characters of `s`, in order.
pub fn chars_of(s: &str) -> (r: Vec<char>)
    ensures
        r@ == s@,
{
    let mut it = s.chars();
    let mut out: Vec<char> = Vec::new();
    loop
        invariant
            out@ + it.remaining() == s@,
            it.obeys_prophetic_iter_laws(),
            it.decrease() is Some,
        ensures
            out@ == s@,
        decreases it.decrease()->0,
    {
        match it.next() {
            Some(c) => {
                out.push(c);
            },
            None => {
                assert(out@ =~= s@);
                break;
            },
        }
    }
    out
}

/// Whether `phrase` occurs in `text`.
pub fn find_phrase(text: &Vec<char>, phrase: &Vec<char>) -> (r: bool)
    ensures
        r == contains_phrase(text@, phrase@),
{
    let n = text.len();
    let m = phrase.len();
    if m > n {
        return false;
    }
    let mut i: usize = 0;
    while i <= n - m
        invariant
            n == text@.len(),
            m == phrase@.len(),
            m <= n,
            i <= n - m + 1,
            forall|k: int| 0 <= k < i ==> #[trigger] text@.subrange(k, k + m) != phrase@,
        decreases n - m + 1 - i,
    {
        let mut j: usize = 0;
        while j < m && text[i + j] == phrase[j]
            invariant
                n == text@.len(),
                m == phrase@.len(),
                i + m <= n,
                j <= m,
                forall|l: int| 0 <= l < j ==> text@[i + l] == phrase@[l],
            decreases m - j,
        {
            j += 1;
        }
        if j == m {
            assert(text@.subrange(i as int, i + m) =~= phrase@);
            return true;
        }
        assert(text@.subrange(i as int, i + m)[j as int] != phrase@[j as int]);
        i += 1;
    }
    proof {
        assert forall|k: int| 0 <= k && k + m <= n implies #[trigger] text@.subrange(k, k + m)
            != phrase@ by {
            assert(k < i);
        }
    }
    false
}

} // verus!
