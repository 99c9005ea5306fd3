//! Text handling shared by the profile store and the chat relay:
//! the whitespace alphabet, the blank test behind profile validation,
//! and the whitespace tokenizer behind the relay's chunking.

use vstd::prelude::*;

verus! {

/// The Unicode White_Space characters: the set that `str::trim` and
/// `str::split_whitespace` treat as whitespace.
pub open spec fn is_whitespace(c: char) -> bool {
    c == '\u{0009}' || c == '\u{000A}' || c == '\u{000B}' || c == '\u{000C}'
        || c == '\u{000D}' || c == '\u{0020}' || c == '\u{0085}' || c == '\u{00A0}'
        || c == '\u{1680}' || c == '\u{2000}' || c == '\u{2001}' || c == '\u{2002}'
        || c == '\u{2003}' || c == '\u{2004}' || c == '\u{2005}' || c == '\u{2006}'
        || c == '\u{2007}' || c == '\u{2008}' || c == '\u{2009}' || c == '\u{200A}'
        || c == '\u{2028}' || c == '\u{2029}' || c == '\u{202F}' || c == '\u{205F}'
        || c == '\u{3000}'
}

pub fn whitespace_char(c: char) -> (r: bool)
    ensures
        r == is_whitespace(c),
{
    c == '\u{0009}' || c == '\u{000A}' || c == '\u{000B}' || c == '\u{000C}'
        || c == '\u{000D}' || c == '\u{0020}' || c == '\u{0085}' || c == '\u{00A0}'
        || c == '\u{1680}' || c == '\u{2000}' || c == '\u{2001}' || c == '\u{2002}'
        || c == '\u{2003}' || c == '\u{2004}' || c == '\u{2005}' || c == '\u{2006}'
        || c == '\u{2007}' || c == '\u{2008}' || c == '\u{2009}' || c == '\u{200A}'
        || c == '\u{2028}' || c == '\u{2029}' || c == '\u{202F}' || c == '\u{205F}'
        || c == '\u{3000}'
}

/// A text is blank when every character is whitespace; the empty text
/// is blank. This is what `str::trim` leaving nothing means.
pub open spec fn blank_text(s: Seq<char>) -> bool {
    forall|i: int| 0 <= i < s.len() ==> is_whitespace(s[i])
}

/// Whether the text trims to nothing.
pub fn is_blank(s: &str) -> (r: bool)
    ensures
        r == blank_text(s@),
{
    let n = s.unicode_len();
    let mut i: usize = 0;
    while i < n
        invariant
            i <= n,
            n == s@.len(),
            forall|j: int| 0 <= j < i ==> is_whitespace(s@[j]),
        decreases n - i,
    {
        if !whitespace_char(s.get_char(i)) {
            assert(!is_whitespace(s@[i as int]));
            return false;
        }
        i = i + 1;
    }
    true
}

/// Left-to-right scan that splits a text into its whitespace-delimited
/// tokens: `cur` is the token being read, `acc` the tokens already read.
pub open spec fn scan_tokens(s: Seq<char>, i: int, cur: Seq<char>, acc: Seq<Seq<char>>) -> Seq<
    Seq<char>,
>
    decreases s.len() - i,
{
    if i < 0 || i >= s.len() {
        if cur.len() > 0 {
            acc.push(cur)
        } else {
            acc
        }
    } else if is_whitespace(s[i]) {
        scan_tokens(
            s,
            i + 1,
            Seq::empty(),
            if cur.len() > 0 {
                acc.push(cur)
            } else {
                acc
            },
        )
    } else {
        scan_tokens(s, i + 1, cur.push(s[i]), acc)
    }
}

/// The whitespace-delimited tokens of a text, in order: the maximal
/// runs of non-whitespace characters. A blank text has no tokens.
pub open spec fn tokens_of(s: Seq<char>) -> Seq<Seq<char>> {
    scan_tokens(s, 0, Seq::empty(), Seq::empty())
}

/// Splits a text into its whitespace-delimited tokens, in order.
pub fn split_words(s: &str) -> (tokens: Vec<String>)
    ensures
        tokens.deep_view() == tokens_of(s@),
{
    let n = s.unicode_len();
    let mut tokens: Vec<String> = Vec::new();
    let mut start: usize = 0;
    let mut i: usize = 0;
    proof {
        assert(s@.subrange(0, 0) =~= Seq::<char>::empty());
        assert(tokens.deep_view() =~= Seq::<Seq<char>>::empty());
    }
    while i < n
        invariant
            start <= i <= n,
            n == s@.len(),
            scan_tokens(s@, i as int, s@.subrange(start as int, i as int), tokens.deep_view())
                == tokens_of(s@),
        decreases n - i,
    {
        let ghost cur = s@.subrange(start as int, i as int);
        let ghost acc = tokens.deep_view();
        let c = s.get_char(i);
        if whitespace_char(c) {
            if start < i {
                let tok = s.substring_char(start, i).to_owned();
                proof {
                    assert(cur.len() > 0);
                }
                tokens.push(tok);
                proof {
                    assert(tokens.deep_view() =~= acc.push(cur));
                }
            } else {
                proof {
                    assert(cur =~= Seq::<char>::empty());
                    assert(cur.len() == 0);
                }
            }
            i = i + 1;
            start = i;
            proof {
                assert(s@.subrange(start as int, i as int) =~= Seq::<char>::empty());
            }
        } else {
            i = i + 1;
            proof {
                assert(s@.subrange(start as int, i as int) =~= cur.push(s@[i - 1]));
            }
        }
    }
    if start < n {
        let tok = s.substring_char(start, n).to_owned();
        let ghost cur = s@.subrange(start as int, n as int);
        let ghost acc = tokens.deep_view();
        tokens.push(tok);
        proof {
            assert(cur.len() > 0);
            assert(tokens.deep_view() =~= acc.push(cur));
        }
    }
    tokens
}

} // verus!
