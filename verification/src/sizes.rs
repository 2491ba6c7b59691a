//! Sizes as people write them: a number and a binary unit. The text is
//! taken apart here; the number is read where floating point is at home.

use crate::textfmt::{chars_of, text_of, to_upper, trim, trimmed, uppercased};
use vstd::prelude::*;
use vstd::string::*;

verus! {

/// Whether `s` ends with `pat`.
pub open spec fn ends_with(s: Seq<char>, pat: Seq<char>) -> bool {
    s.len() >= pat.len() && s.skip(s.len() - pat.len()) == pat
}

/// `s` without `pat` at its end, as often as `pat` stands there.
pub open spec fn without_suffix(s: Seq<char>, pat: Seq<char>) -> Seq<char>
    decreases s.len(),
{
    if pat.len() > 0 && ends_with(s, pat) {
        without_suffix(s.take(s.len() - pat.len()), pat)
    } else {
        s
    }
}

pub const KILO: u64 = 1024;

pub const MEGA: u64 = 1048576;

pub const GIGA: u64 = 1073741824;

pub const TERA: u64 = 1099511627776;

/// A size text taken apart: the part before the unit, the number of bytes
/// in the unit, and whether white space is still to be taken from the part.
pub struct SizeParts {
    pub number: Seq<char>,
    pub unit: u64,
    pub trim: bool,
}

/// An upper-case size text taken apart at its unit: `TB` or `T`, `GB` or
/// `G`, `MB` or `M`, `KB` or `K`, `B`, or none, which means bytes.
pub open spec fn size_parts(t: Seq<char>) -> SizeParts {
    if ends_with(t, seq!['T', 'B']) {
        SizeParts { number: without_suffix(t, seq!['T', 'B']), unit: TERA, trim: true }
    } else if ends_with(t, seq!['T']) {
        SizeParts { number: without_suffix(t, seq!['T']), unit: TERA, trim: true }
    } else if ends_with(t, seq!['G', 'B']) {
        SizeParts { number: without_suffix(t, seq!['G', 'B']), unit: GIGA, trim: true }
    } else if ends_with(t, seq!['G']) {
        SizeParts { number: without_suffix(t, seq!['G']), unit: GIGA, trim: true }
    } else if ends_with(t, seq!['M', 'B']) {
        SizeParts { number: without_suffix(t, seq!['M', 'B']), unit: MEGA, trim: true }
    } else if ends_with(t, seq!['M']) {
        SizeParts { number: without_suffix(t, seq!['M']), unit: MEGA, trim: true }
    } else if ends_with(t, seq!['K', 'B']) {
        SizeParts { number: without_suffix(t, seq!['K', 'B']), unit: KILO, trim: true }
    } else if ends_with(t, seq!['K']) {
        SizeParts { number: without_suffix(t, seq!['K']), unit: KILO, trim: true }
    } else if ends_with(t, seq!['B']) {
        SizeParts { number: without_suffix(t, seq!['B']), unit: 1, trim: true }
    } else {
        SizeParts { number: t, unit: 1, trim: false }
    }
}

fn sub_vec(s: &Vec<char>, from: usize, to: usize) -> (part: Vec<char>)
    requires
        from <= to <= s@.len(),
    ensures
        part@ == s@.subrange(from as int, to as int),
{
    let mut part: Vec<char> = Vec::new();
    let mut i: usize = from;
    while i < to
        invariant
            from <= i <= to <= s@.len(),
            part@ == s@.subrange(from as int, i as int),
        decreases to - i,
    {
        part.push(s[i]);
        proof {
            assert(part@ =~= s@.subrange(from as int, i + 1));
        }
        i += 1;
    }
    part
}

fn same_chars(a: &Vec<char>, b: &Vec<char>) -> (same: bool)
    ensures
        same == (a@ == b@),
{
    if a.len() != b.len() {
        return false;
    }
    let mut i: usize = 0;
    while i < a.len()
        invariant
            i <= a@.len(),
            a@.len() == b@.len(),
            forall|k: int| 0 <= k < i ==> a@[k] == b@[k],
        decreases a@.len() - i,
    {
        if a[i] != b[i] {
            return false;
        }
        i += 1;
    }
    proof {
        assert(a@ =~= b@);
    }
    true
}

fn has_suffix(s: &Vec<char>, len: usize, pat: &Vec<char>) -> (found: bool)
    requires
        len <= s@.len(),
    ensures
        found == ends_with(s@.take(len as int), pat@),
{
    if pat.len() > len {
        return false;
    }
    let tail = sub_vec(s, len - pat.len(), len);
    proof {
        assert(s@.take(len as int).skip(len - pat@.len()) =~= tail@);
    }
    same_chars(&tail, pat)
}

fn strip_all(s: &Vec<char>, pat: &Vec<char>) -> (kept: Vec<char>)
    requires
        pat@.len() > 0,
    ensures
        kept@ == without_suffix(s@, pat@),
{
    let mut len: usize = s.len();
    proof {
        assert(s@.take(len as int) =~= s@);
    }
    while has_suffix(s, len, pat)
        invariant
            len <= s@.len(),
            pat@.len() > 0,
            without_suffix(s@.take(len as int), pat@) == without_suffix(s@, pat@),
        decreases len,
    {
        proof {
            assert(s@.take(len as int).take(len - pat@.len()) =~= s@.take(len - pat@.len()));
        }
        len = len - pat.len();
    }
    sub_vec(s, 0, len)
}

fn pattern(a: char, b: Option<char>) -> (pat: Vec<char>)
    ensures
        pat@ == match b {
            Some(second) => seq![a, second],
            None => seq![a],
        },
{
    let mut pat: Vec<char> = Vec::new();
    pat.push(a);
    match b {
        Some(second) => {
            pat.push(second);
            proof {
                assert(pat@ =~= seq![a, second]);
            }
        },
        None => {
            proof {
                assert(pat@ =~= seq![a]);
            }
        },
    }
    pat
}

/// Takes the unit `letter` or `letter` and `B` from the end of a text.
fn take_unit(t: &Vec<char>, letter: char) -> (number: Option<Vec<char>>)
    ensures
        match number {
            Some(n) => if ends_with(t@, seq![letter, 'B']) {
                n@ == without_suffix(t@, seq![letter, 'B'])
            } else {
                ends_with(t@, seq![letter]) && n@ == without_suffix(t@, seq![letter])
            },
            None => !ends_with(t@, seq![letter, 'B']) && !ends_with(t@, seq![letter]),
        },
{
    let long = pattern(letter, Some('B'));
    let short = pattern(letter, None);
    proof {
        assert(t@.take(t@.len() as int) =~= t@);
    }
    if has_suffix(t, t.len(), &long) {
        Some(strip_all(t, &long))
    } else if has_suffix(t, t.len(), &short) {
        Some(strip_all(t, &short))
    } else {
        None
    }
}

/// A size as it was written, taken apart: the text in upper case without
/// the white space around it, the part of it that is the number, and the
/// number of bytes in its unit.
#[derive(Debug, Clone, PartialEq, Eq)]
pub struct SizeText {
    pub text: String,
    pub number: String,
    pub unit: u64,
}

/// The number in an upper-case size text: the part before the unit,
/// without the white space around it.
pub open spec fn size_number(t: Seq<char>) -> Seq<char> {
    let parts = size_parts(t);
    if parts.trim {
        trimmed(parts.number)
    } else {
        parts.number
    }
}

/// The message for a text that is no size.
pub open spec fn invalid_size(text: Seq<char>) -> Seq<char> {
    "Invalid size format "@ + text
}

/// Takes a size such as `100`, `1.5KB` or `2 GB` apart: into its number,
/// and its unit of bytes (`B`, or none), or of 1024 bytes to the first
/// (`K`, `KB`), second (`M`), third (`G`) or fourth power (`T`), in either
/// case of the letters. Whether the number is one is for the caller to say.
pub fn split_size(size_str: &str) -> (parts: SizeText)
    ensures
        parts.text@ == uppercased(trimmed(size_str@)),
        parts.number@ == size_number(parts.text@),
        parts.unit == size_parts(parts.text@).unit,
{
    let upper = to_upper(trim(size_str));
    let t = chars_of(upper.as_str());
    let (number, unit, trim_it): (Vec<char>, u64, bool) = match take_unit(&t, 'T') {
        Some(n) => (n, TERA, true),
        None => match take_unit(&t, 'G') {
            Some(n) => (n, GIGA, true),
            None => match take_unit(&t, 'M') {
                Some(n) => (n, MEGA, true),
                None => match take_unit(&t, 'K') {
                    Some(n) => (n, KILO, true),
                    None => {
                        let b = pattern('B', None);
                        proof {
                            assert(t@.take(t@.len() as int) =~= t@);
                        }
                        if has_suffix(&t, t.len(), &b) {
                            (strip_all(&t, &b), 1, true)
                        } else {
                            (sub_vec(&t, 0, t.len()), 1, false)
                        }
                    },
                },
            },
        },
    };
    proof {
        assert(t@.subrange(0, t@.len() as int) =~= t@);
        assert(number@ == size_parts(t@).number);
        assert(unit == size_parts(t@).unit);
        assert(trim_it == size_parts(t@).trim);
    }
    let as_text = text_of(&number);
    let number_text = if trim_it {
        trim(as_text.as_str()).to_owned()
    } else {
        as_text
    };
    SizeText { text: upper, number: number_text, unit }
}

/// The message for a text that is no size.
pub fn invalid_size_message(text: &str) -> (message: String)
    ensures
        message@ == invalid_size(text@),
{
    let mut message = String::new();
    message.append("Invalid size format ");
    message.append(text);
    message
}

} // verus!
