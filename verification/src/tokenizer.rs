//! Splitting one line of raw input into whitespace-delimited tokens.
//!
//! The tokenizer performs no quoting, escaping, or glob expansion: a token is
//! a maximal run of non-whitespace characters, and tokens appear in the order
//! they occur in the input line.

use vstd::prelude::*;

verus! {

/// The whitespace characters that separate tokens.
pub open spec fn is_shell_space(c: char) -> bool {
    c == ' ' || c == '\t' || c == '\n' || c == '\r' || c == '\u{000B}' || c == '\u{000C}'
}

/// Executable test for a token-separating whitespace character.
pub fn is_space_char(c: char) -> (r: bool)
    ensures
        r == is_shell_space(c),
{
    c == ' ' || c == '\t' || c == '\n' || c == '\r' || c == '\u{000B}' || c == '\u{000C}'
}

/// Length of the maximal non-whitespace prefix of `s`.
pub open spec fn first_word_len(s: Seq<char>) -> int
    decreases s.len(),
{
    if s.len() == 0 || is_shell_space(s[0]) {
        0
    } else {
        1 + first_word_len(s.subrange(1, s.len() as int))
    }
}

proof fn lemma_first_word_len_bounds(s: Seq<char>)
    ensures
        0 <= first_word_len(s) <= s.len(),
        s.len() > 0 && !is_shell_space(s[0]) ==> 1 <= first_word_len(s),
    decreases s.len(),
{
    if s.len() > 0 && !is_shell_space(s[0]) {
        lemma_first_word_len_bounds(s.subrange(1, s.len() as int));
    }
}

/// The sequence of tokens of `s`: maximal runs of non-whitespace characters,
/// in order, with all whitespace discarded.
pub open spec fn tokenize_spec(s: Seq<char>) -> Seq<Seq<char>>
    decreases s.len(),
    via tokenize_spec_decreases
{
    if s.len() == 0 {
        Seq::empty()
    } else if is_shell_space(s[0]) {
        tokenize_spec(s.subrange(1, s.len() as int))
    } else {
        let w = first_word_len(s);
        seq![s.subrange(0, w)] + tokenize_spec(s.subrange(w, s.len() as int))
    }
}

#[via_fn]
proof fn tokenize_spec_decreases(s: Seq<char>) {
    lemma_first_word_len_bounds(s);
}

/// The first word of `s` ends exactly where the first whitespace character
/// (or the end of `s`) is.
proof fn lemma_first_word_len_exact(s: Seq<char>, w: int)
    requires
        0 <= w <= s.len(),
        forall|j: int| 0 <= j < w ==> !is_shell_space(s[j]),
        w == s.len() || is_shell_space(s[w]),
    ensures
        first_word_len(s) == w,
    decreases w,
{
    if w > 0 {
        let t = s.subrange(1, s.len() as int);
        assert forall|j: int| 0 <= j < w - 1 implies !is_shell_space(t[j]) by {
            assert(t[j] == s[j + 1]);
        }
        if w - 1 < t.len() {
            assert(t[w - 1] == s[w]);
        }
        lemma_first_word_len_exact(t, w - 1);
    }
}

/// Unfolding of `tokenize_spec` at a word boundary: if the first `w`
/// characters of `s` are non-whitespace and character `w` (if any) is
/// whitespace, the tokens of `s` are that word followed by the tokens of the
/// rest.
proof fn lemma_tokenize_word(s: Seq<char>, w: int)
    requires
        0 < w <= s.len(),
        forall|j: int| 0 <= j < w ==> !is_shell_space(s[j]),
        w == s.len() || is_shell_space(s[w]),
    ensures
        tokenize_spec(s) == seq![s.subrange(0, w)] + tokenize_spec(s.subrange(w, s.len() as int)),
{
    lemma_first_word_len_exact(s, w);
}

/// An input of nothing but whitespace has no tokens. Together with the
/// dispatcher's contract this makes blank input a guaranteed no-op: nothing
/// is resolved, nothing is launched, no error is raised.
pub proof fn lemma_tokenize_all_space(s: Seq<char>)
    requires
        forall|j: int| 0 <= j < s.len() ==> is_shell_space(s[j]),
    ensures
        tokenize_spec(s) == Seq::<Seq<char>>::empty(),
    decreases s.len(),
{
    if s.len() > 0 {
        let t = s.subrange(1, s.len() as int);
        assert forall|j: int| 0 <= j < t.len() implies is_shell_space(t[j]) by {
            assert(t[j] == s[j + 1]);
        }
        lemma_tokenize_all_space(t);
    }
}

/// Splits `line` into its whitespace-delimited tokens, in order.
pub fn tokenize(line: &str) -> (tokens: Vec<String>)
    ensures
        tokens.deep_view() == tokenize_spec(line@),
{
    let n = line.unicode_len();
    let mut tokens: Vec<String> = Vec::new();
    let mut i: usize = 0;
    proof {
        assert(line@.subrange(0, n as int) =~= line@);
        assert(tokens.deep_view() =~= Seq::<Seq<char>>::empty());
        assert(Seq::<Seq<char>>::empty() + tokenize_spec(line@) =~= tokenize_spec(line@));
    }
    while i < n
        invariant
            i <= n,
            n == line@.len(),
            tokens.deep_view() + tokenize_spec(line@.subrange(i as int, n as int))
                == tokenize_spec(line@),
        decreases n - i,
    {
        let ghost whole = line@;
        let ghost pre = tokens.deep_view();
        let ghost t = whole.subrange(i as int, n as int);
        let c = line.get_char(i);
        if is_space_char(c) {
            proof {
                assert(t[0] == whole[i as int]);
                assert(t.subrange(1, t.len() as int)
                    =~= whole.subrange(i as int + 1, n as int));
            }
            i = i + 1;
        } else {
            let start = i;
            i = i + 1;
            loop
                invariant
                    start < i <= n,
                    n == line@.len(),
                    forall|j: int| start <= j < i ==> !is_shell_space(line@[j]),
                ensures
                    start < i <= n,
                    forall|j: int| start <= j < i ==> !is_shell_space(line@[j]),
                    i == n || is_shell_space(line@[i as int]),
                decreases n - i,
            {
                if i == n {
                    break;
                }
                let d = line.get_char(i);
                if is_space_char(d) {
                    break;
                }
                i = i + 1;
            }
            let word = line.substring_char(start, i);
            let tok = word.to_owned();
            proof {
                let w = i - start;
                assert forall|j: int| 0 <= j < w implies !is_shell_space(t[j]) by {
                    assert(t[j] == whole[start + j]);
                }
                if w < t.len() {
                    assert(t[w] == whole[i as int]);
                }
                lemma_tokenize_word(t, w);
                assert(t.subrange(0, w) =~= whole.subrange(start as int, i as int));
                assert(t.subrange(w, t.len() as int) =~= whole.subrange(i as int, n as int));
            }
            tokens.push(tok);
            proof {
                assert(tokens.deep_view() =~= pre.push(tok@));
                assert(pre.push(tok@) =~= pre + seq![t.subrange(0, i - start)]);
                assert((pre + seq![t.subrange(0, i - start)])
                    + tokenize_spec(whole.subrange(i as int, n as int))
                    =~= pre + (seq![t.subrange(0, i - start)]
                        + tokenize_spec(whole.subrange(i as int, n as int))));
            }
        }
    }
    proof {
        assert(line@.subrange(n as int, n as int) =~= Seq::<char>::empty());
        assert(tokenize_spec(Seq::<char>::empty()) =~= Seq::<Seq<char>>::empty());
        assert(tokens.deep_view() + Seq::<Seq<char>>::empty() =~= tokens.deep_view());
    }
    tokens
}

} // verus!
