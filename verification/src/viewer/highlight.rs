//! A simple highlighting of source text: the keywords of a language, each
//! between two escape sequences of the terminal.

use crate::textfmt::{chars_of, same_text, text_of};
use vstd::prelude::*;
use vstd::string::*;

verus! {

/// Whether `pat` stands in `s` at position `at`.
pub open spec fn matches_at(s: Seq<char>, at: int, pat: Seq<char>) -> bool {
    0 <= at && at + pat.len() <= s.len() && s.subrange(at, at + pat.len()) == pat
}

/// The text `s` from position `from` on, with `to` in the place of each
/// occurrence of `pat`; occurrences are found from left to right and do not
/// overlap.
pub open spec fn replaced_from(s: Seq<char>, from: int, pat: Seq<char>, to: Seq<char>) -> Seq<char>
    decreases s.len() - from,
{
    if from < 0 || from >= s.len() {
        Seq::empty()
    } else if pat.len() > 0 && matches_at(s, from, pat) {
        to + replaced_from(s, from + pat.len(), pat, to)
    } else {
        seq![s[from]] + replaced_from(s, from + 1, pat, to)
    }
}

/// The text `s` with `to` in the place of each occurrence of `pat`.
pub open spec fn replaced(s: Seq<char>, pat: Seq<char>, to: Seq<char>) -> Seq<char> {
    replaced_from(s, 0, pat, to)
}

/// A keyword between the sequence that turns bright blue on and the one
/// that turns all colours off.
pub open spec fn marked(keyword: Seq<char>) -> Seq<char> {
    "\x1b[94m"@ + keyword + "\x1b[0m"@
}

/// The text with one keyword marked wherever it occurs.
pub open spec fn with_keyword(s: Seq<char>, keyword: Seq<char>) -> Seq<char> {
    replaced(s, keyword, marked(keyword))
}

/// Rust source with the keywords `let`, `fn`, `struct`, `impl`, `pub` and
/// `use` marked, one keyword after the other.
pub open spec fn highlighted_rust(code: Seq<char>) -> Seq<char> {
    with_keyword(
        with_keyword(
            with_keyword(
                with_keyword(with_keyword(with_keyword(code, "let"@), "fn"@), "struct"@),
                "impl"@,
            ),
            "pub"@,
        ),
        "use"@,
    )
}

/// Source text as it is shown for a language: Rust with its keywords
/// marked, any other language as it is.
pub open spec fn highlighted(code: Seq<char>, language: Seq<char>) -> Seq<char> {
    if language == "rs"@ || language == "rust"@ {
        highlighted_rust(code)
    } else {
        code
    }
}

pub(crate) fn stands_at(s: &Vec<char>, at: usize, pat: &Vec<char>) -> (found: bool)
    requires
        at <= s@.len(),
    ensures
        found == matches_at(s@, at as int, pat@),
{
    let len = s.len();
    if pat.len() > len - at {
        return false;
    }
    let mut k: usize = 0;
    while k < pat.len()
        invariant
            k <= pat@.len(),
            at + pat@.len() <= s@.len() <= usize::MAX,
            forall|j: int| 0 <= j < k ==> s@[at + j] == pat@[j],
        decreases pat@.len() - k,
    {
        if s[at + k] != pat[k] {
            proof {
                assert(s@.subrange(at as int, at + pat@.len())[k as int] == s@[at + k]);
            }
            return false;
        }
        k += 1;
    }
    proof {
        assert(s@.subrange(at as int, at + pat@.len()) =~= pat@);
    }
    true
}

/// The text `s` with `to` in the place of each occurrence of `pat`.
pub fn replace_all(s: &Vec<char>, pat: &Vec<char>, to: &Vec<char>) -> (out: Vec<char>)
    ensures
        out@ == replaced(s@, pat@, to@),
{
    let ghost all = replaced(s@, pat@, to@);
    let mut out: Vec<char> = Vec::new();
    let mut pos: usize = 0;
    while pos < s.len()
        invariant
            pos <= s@.len(),
            all == replaced(s@, pat@, to@),
            out@ + replaced_from(s@, pos as int, pat@, to@) == all,
        decreases s@.len() - pos,
    {
        let ghost before = out@;
        let ghost rest = replaced_from(s@, pos as int, pat@, to@);
        if pat.len() > 0 && stands_at(s, pos, pat) {
            let mut k: usize = 0;
            while k < to.len()
                invariant
                    k <= to@.len(),
                    out@ == before + to@.take(k as int),
                decreases to@.len() - k,
            {
                out.push(to[k]);
                proof {
                    assert(to@.take(k + 1) =~= to@.take(k as int).push(to@[k as int]));
                }
                k += 1;
            }
            proof {
                assert(to@.take(to@.len() as int) =~= to@);
                assert(out@ + replaced_from(s@, pos + pat@.len(), pat@, to@) =~= before + rest);
            }
            pos = pos + pat.len();
        } else {
            out.push(s[pos]);
            proof {
                assert(out@ + replaced_from(s@, pos + 1, pat@, to@) =~= before + rest);
            }
            pos += 1;
        }
    }
    proof {
        assert(out@ =~= all);
    }
    out
}

fn mark_keyword(s: &Vec<char>, keyword: &str) -> (out: Vec<char>)
    ensures
        out@ == with_keyword(s@, keyword@),
{
    let pat = chars_of(keyword);
    let mut to = String::new();
    to.append("\x1b[94m");
    to.append(keyword);
    to.append("\x1b[0m");
    let to = chars_of(to.as_str());
    replace_all(s, &pat, &to)
}

/// Highlights source text of a language: in Rust (`rs` or `rust`) the
/// keywords `let`, `fn`, `struct`, `impl`, `pub` and `use` are marked for
/// the terminal; text of any other language is returned as it is.
pub fn highlight_syntax(code: &str, language: &str) -> (out: String)
    ensures
        out@ == highlighted(code@, language@),
{
    if same_text(language, "rs") || same_text(language, "rust") {
        let s = chars_of(code);
        let s = mark_keyword(&s, "let");
        let s = mark_keyword(&s, "fn");
        let s = mark_keyword(&s, "struct");
        let s = mark_keyword(&s, "impl");
        let s = mark_keyword(&s, "pub");
        let s = mark_keyword(&s, "use");
        text_of(&s)
    } else {
        code.to_owned()
    }
}

} // verus!
