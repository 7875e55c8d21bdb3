//! Substring search and first-occurrence highlighting.
//!
//! A line of piped input is printed with the first occurrence of the current
//! filter term wrapped in a highlight escape sequence and a reset sequence
//! immediately after it; occurrences after the first, lines without an
//! occurrence, and every line under an empty term are left untouched.

use vstd::prelude::*;
use vstd::string::*;

verus! {

/// The escape sequence that opens a highlighted span: white text on a
/// bright red background.
pub open spec fn highlight_on() -> Seq<char> {
    "\x1B[37;101m"@
}

/// The escape sequence that closes a highlighted span.
pub open spec fn highlight_off() -> Seq<char> {
    "\x1B[0m"@
}

/// The term `t` occurs in `l` starting at position `i`.
pub open spec fn match_at(l: Seq<char>, t: Seq<char>, i: int) -> bool {
    &&& 0 <= i
    &&& i + t.len() <= l.len()
    &&& l.subrange(i, i + t.len()) == t
}

/// The term `t` occurs somewhere in `l`.
pub open spec fn term_occurs(l: Seq<char>, t: Seq<char>) -> bool {
    exists|i: int| match_at(l, t, i)
}

/// The position of the first occurrence of `t` in `l` at or after `i`,
/// or -1 when there is none.
pub open spec fn first_match_from(l: Seq<char>, t: Seq<char>, i: int) -> int
    decreases l.len() - i + 1,
{
    if i < 0 || i + t.len() > l.len() {
        -1
    } else if match_at(l, t, i) {
        i
    } else {
        first_match_from(l, t, i + 1)
    }
}

/// The position of the first occurrence of `t` in `l`, or -1 when there is
/// none.
pub open spec fn first_match(l: Seq<char>, t: Seq<char>) -> int {
    first_match_from(l, t, 0)
}

/// A line after highlighting: the first occurrence of a non-empty term is
/// wrapped in the highlight-on and highlight-off sequences; a line without
/// an occurrence, and any line under an empty term, stays as it is.
pub open spec fn highlight_spec(l: Seq<char>, t: Seq<char>) -> Seq<char> {
    if t.len() > 0 && first_match(l, t) >= 0 {
        let i = first_match(l, t);
        l.subrange(0, i) + highlight_on() + t + highlight_off() + l.subrange(
            i + t.len(),
            l.len() as int,
        )
    } else {
        l
    }
}

proof fn lemma_first_match_from(l: Seq<char>, t: Seq<char>, i: int)
    requires
        0 <= i,
    ensures
        first_match_from(l, t, i) >= 0 ==> {
            &&& i <= first_match_from(l, t, i)
            &&& match_at(l, t, first_match_from(l, t, i))
            &&& forall|j: int| i <= j < first_match_from(l, t, i) ==> !match_at(l, t, j)
        },
        first_match_from(l, t, i) < 0 ==> forall|j: int| i <= j ==> !match_at(l, t, j),
    decreases l.len() - i + 1,
{
    if i + t.len() > l.len() {
        assert forall|j: int| i <= j implies !match_at(l, t, j) by {
            assert(j + t.len() >= i + t.len());
        }
    } else if match_at(l, t, i) {
    } else {
        lemma_first_match_from(l, t, i + 1);
    }
}

proof fn lemma_first_match_is(l: Seq<char>, t: Seq<char>, i: int)
    requires
        match_at(l, t, i),
        forall|j: int| 0 <= j < i ==> !match_at(l, t, j),
    ensures
        first_match(l, t) == i,
{
    lemma_first_match_from(l, t, 0);
    if first_match(l, t) < 0 {
        assert(!match_at(l, t, i));
    }
}

/// Highlight correctness. Under a non-empty term that occurs in the line,
/// the highlighted line is exactly the text before the first occurrence,
/// the highlight-on sequence, the term, the highlight-off sequence, and the
/// text after that occurrence, and no position before the first occurrence
/// holds an occurrence. A line without an occurrence, and any line under an
/// empty term, is unchanged.
pub proof fn lemma_highlight_correct(l: Seq<char>, t: Seq<char>)
    ensures
        t.len() > 0 && term_occurs(l, t) ==> {
            let i = first_match(l, t);
            &&& 0 <= i && i + t.len() <= l.len()
            &&& match_at(l, t, i)
            &&& forall|j: int| 0 <= j < i ==> !match_at(l, t, j)
            &&& highlight_spec(l, t) == l.subrange(0, i) + highlight_on() + t + highlight_off()
                + l.subrange(i + t.len(), l.len() as int)
        },
        !(t.len() > 0 && term_occurs(l, t)) ==> highlight_spec(l, t) == l,
{
    lemma_first_match_from(l, t, 0);
    if t.len() > 0 && term_occurs(l, t) {
        let j = choose|j: int| match_at(l, t, j);
        if first_match(l, t) < 0 {
            assert(!match_at(l, t, j));
        }
    }
}

/// Whether `word` occurs in `string` starting at character position `i`.
fn matches_at(string: &str, word: &str, i: usize) -> (r: bool)
    requires
        i + word@.len() <= string@.len(),
        string@.len() <= usize::MAX,
    ensures
        r == match_at(string@, word@, i as int),
{
    let m: usize = word.unicode_len();
    let mut j: usize = 0;
    while j < m
        invariant
            m == word@.len(),
            i + m <= string@.len(),
            string@.len() <= usize::MAX,
            0 <= j <= m,
            forall|k: int| 0 <= k < j ==> string@[i + k] == word@[k],
        decreases m - j,
    {
        if string.get_char(i + j) != word.get_char(j) {
            proof {
                if match_at(string@, word@, i as int) {
                    assert(string@.subrange(i as int, i + m)[j as int] == word@[j as int]);
                }
            }
            return false;
        }
        j += 1;
    }
    proof {
        assert(string@.subrange(i as int, i + m) =~= word@);
    }
    true
}

/// Returns `string` with the first occurrence of `word` wrapped in the
/// highlight escape sequences, or a copy of `string` when `word` is empty
/// or does not occur in it.
pub fn highlight_word_in_string(string: &str, word: &str) -> (r: String)
    ensures
        r@ == highlight_spec(string@, word@),
{
    let n: usize = string.unicode_len();
    let m: usize = word.unicode_len();
    if m == 0 || m > n {
        proof {
            lemma_first_match_from(string@, word@, 0);
            if m > n && first_match(string@, word@) >= 0 {
                assert(!match_at(string@, word@, first_match(string@, word@)));
            }
        }
        return string.to_owned();
    }
    let mut i: usize = 0;
    while i <= n - m
        invariant
            n == string@.len(),
            m == word@.len(),
            1 <= m <= n,
            0 <= i <= n - m + 1,
            forall|j: int| 0 <= j < i ==> !match_at(string@, word@, j),
        decreases n - i,
    {
        if matches_at(string, word, i) {
            proof {
                lemma_first_match_is(string@, word@, i as int);
            }
            let prefix = string.substring_char(0, i);
            let suffix = string.substring_char(i + m, n);
            let mut r = prefix.to_owned();
            r.append("\x1B[37;101m");
            r.append(word);
            r.append("\x1B[0m");
            r.append(suffix);
            proof {
                assert(r@ =~= highlight_spec(string@, word@));
            }
            return r;
        }
        i += 1;
    }
    proof {
        assert forall|j: int| !match_at(string@, word@, j) by {
            if 0 <= j < i {
            } else if j >= i {
                assert(j + m > n);
            }
        }
        lemma_first_match_from(string@, word@, 0);
        if first_match(string@, word@) >= 0 {
            assert(!match_at(string@, word@, first_match(string@, word@)));
        }
    }
    string.to_owned()
}

/// Order preservation: one output line per input line, in the same order,
/// each the highlighting of the corresponding input line under `word`.
pub fn highlight_lines(lines: &Vec<String>, word: &str) -> (r: Vec<String>)
    ensures
        r@.len() == lines@.len(),
        forall|i: int|
            0 <= i < lines@.len() ==> #[trigger] r@[i]@ == highlight_spec(lines@[i]@, word@),
{
    let mut r: Vec<String> = Vec::new();
    let mut k: usize = 0;
    while k < lines.len()
        invariant
            0 <= k <= lines@.len(),
            r@.len() == k,
            forall|i: int| 0 <= i < k ==> #[trigger] r@[i]@ == highlight_spec(lines@[i]@, word@),
        decreases lines@.len() - k,
    {
        let h = highlight_word_in_string(lines[k].as_str(), word);
        r.push(h);
        k += 1;
    }
    r
}

} // verus!
