//! Splitting text into whitespace-separated words.
use vstd::prelude::*;

use crate::token::{is_whitespace, is_whitespace_char};

verus! {

/// The maximal runs of non-whitespace characters of `s`, in order.
pub open spec fn words(s: Seq<char>) -> Seq<Seq<char>>
    decreases s.len(),
{
    if s.len() == 0 {
        Seq::empty()
    } else {
        let w = words(s.drop_last());
        let c = s.last();
        if is_whitespace_char(c) {
            w
        } else if s.len() >= 2 && !is_whitespace_char(s[s.len() - 2]) {
            w.drop_last().push(w.last().push(c))
        } else {
            w.push(seq![c])
        }
    }
}

/// The words of `s`: its maximal runs of non-whitespace characters, in order.
pub fn split_whitespace(s: &str) -> (r: Vec<String>)
    ensures
        r@.map_values(|w: String| w@) == words(s@),
{
    let n = s.unicode_len();
    let mut out: Vec<String> = Vec::new();
    let mut start: usize = 0;
    let mut i: usize = 0;
    while i < n
        invariant
            n == s@.len(),
            i <= n,
            start <= i,
            i > 0 && !is_whitespace_char(s@[i - 1]) ==> {
                &&& start < i
                &&& (start == 0 || is_whitespace_char(s@[start - 1]))
                &&& words(s@.take(i as int)) == out@.map_values(|w: String| w@).push(
                    s@.subrange(start as int, i as int),
                )
            },
            !(i > 0 && !is_whitespace_char(s@[i - 1])) ==> words(s@.take(i as int)) == out@.map_values(
                |w: String| w@,
            ),
        decreases n - i,
    {
        let c = s.get_char(i);
        let in_word = i > 0 && !is_whitespace(s.get_char(i - 1));
        assert(s@.take(i + 1).drop_last() =~= s@.take(i as int));
        assert(s@.take(i + 1).last() == c);
        if is_whitespace(c) {
            if in_word {
                let ghost prev = out@;
                let w = String::from_str(s.substring_char(start, i));
                out.push(w);
                assert(out@.map_values(|w: String| w@) =~= prev.map_values(|w: String| w@).push(
                    s@.subrange(start as int, i as int),
                ));
            }
        } else if !in_word {
            start = i;
            assert(s@.subrange(start as int, i + 1) =~= seq![c]);
        } else {
            assert(s@.take(i + 1)[i - 1] == s@[i - 1]);
            assert(s@.subrange(start as int, i + 1) =~= s@.subrange(start as int, i as int).push(c));
        }
        i = i + 1;
    }
    if n > 0 && !is_whitespace(s.get_char(n - 1)) {
        let ghost prev = out@;
        let w = String::from_str(s.substring_char(start, n));
        out.push(w);
        assert(out@.map_values(|w: String| w@) =~= prev.map_values(|w: String| w@).push(
            s@.subrange(start as int, n as int),
        ));
    }
    assert(s@.take(n as int) =~= s@);
    assert(out@.map_values(|w: String| w@) =~= words(s@));
    out
}

} // verus!
