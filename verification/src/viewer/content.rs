//! Helpers on the text of a file: cutting it to limits, escaping control
//! characters, and guessing the delimiter of a table.

use crate::lines::{lines, split_lines};
use crate::textfmt::{
    chars_of, decode_lossy, hexadecimal, lossy_text, pad_left, push_hexadecimal_padded,
};
use crate::viewer::text::{min_nat, text_full_load, view_text_full_load};
use vstd::prelude::*;
use vstd::slice::slice_subrange;
use vstd::string::*;
use vstd::utf8::{encode_utf8, encode_utf8_decode_utf8, encode_utf8_valid_utf8};

verus! {

/// The leading bytes of a content under an optional limit.
pub open spec fn byte_limited(bytes: Seq<u8>, max_bytes: Option<usize>) -> Seq<u8> {
    match max_bytes {
        Some(max) if bytes.len() > max => bytes.take(max as int),
        _ => bytes,
    }
}

/// A content cut to limits: first to its leading `max_bytes` bytes, then to
/// the first `max_lines` lines of those, joined by line feeds. A character
/// that the cut splits is decoded as U+FFFD.
pub open spec fn truncated_content(
    content: Seq<char>,
    max_lines: Option<usize>,
    max_bytes: Option<usize>,
) -> Seq<char> {
    let kept = byte_limited(encode_utf8(content), max_bytes);
    match max_lines {
        Some(max) => text_full_load(kept, max as nat),
        None => lossy_text(kept),
    }
}

/// Cuts a text to limits: first to `max_bytes` bytes, then to `max_lines`
/// lines. Without a limit that applies, the text is returned as it is.
pub fn truncate_content(content: &str, max_lines: Option<usize>, max_bytes: Option<usize>) -> (out:
    String)
    ensures
        out@ == truncated_content(content@, max_lines, max_bytes),
        max_lines is None && byte_limited(encode_utf8(content@), max_bytes) == encode_utf8(content@)
            ==> out@ == content@,
{
    let bytes = content.as_bytes();
    let kept: &[u8] = match max_bytes {
        Some(max) => {
            if bytes.len() > max {
                slice_subrange(bytes, 0, max)
            } else {
                bytes
            }
        },
        None => bytes,
    };
    proof {
        encode_utf8_valid_utf8(content@);
        encode_utf8_decode_utf8(content@);
    }
    match max_lines {
        Some(max) => view_text_full_load(kept, max),
        None => decode_lossy(kept),
    }
}

/// Whether a character is a control code: one below the space, or one
/// from U+007F to U+009F.
pub open spec fn is_control(c: char) -> bool {
    (c as u32) < 0x20 || (0x7f <= (c as u32) && (c as u32) <= 0x9f)
}

/// A character as it is shown: a line feed, a tab and a carriage return
/// as a backslash and a letter, another control code as `\x` and two
/// hexadecimal digits, any other character as itself.
pub open spec fn escaped_char(c: char) -> Seq<char> {
    if c == '\n' {
        seq!['\\', 'n']
    } else if c == '\t' {
        seq!['\\', 't']
    } else if c == '\r' {
        seq!['\\', 'r']
    } else if is_control(c) {
        seq!['\\', 'x'] + pad_left(hexadecimal(c as u32 as nat), 2, '0')
    } else {
        seq![c]
    }
}

/// The first `count` characters of a text, each as it is shown.
pub open spec fn escaped(text: Seq<char>, count: nat) -> Seq<char>
    decreases count,
{
    if count == 0 || count > text.len() {
        Seq::empty()
    } else {
        escaped(text, (count - 1) as nat) + escaped_char(text[count - 1])
    }
}

/// Makes the control characters of a text visible.
pub fn escape_control_chars(s: &str) -> (out: String)
    ensures
        out@ == escaped(s@, s@.len()),
{
    let chars = chars_of(s);
    let mut out = String::new();
    let mut i: usize = 0;
    while i < chars.len()
        invariant
            i <= chars@.len(),
            chars@ == s@,
            out@ == escaped(s@, i as nat),
        decreases chars@.len() - i,
    {
        let c = chars[i];
        let code = c as u32;
        if c == '\n' {
            out.push('\\');
            out.push('n');
        } else if c == '\t' {
            out.push('\\');
            out.push('t');
        } else if c == '\r' {
            out.push('\\');
            out.push('r');
        } else if code < 0x20 || (0x7f <= code && code <= 0x9f) {
            out.push('\\');
            out.push('x');
            push_hexadecimal_padded(&mut out, code as u64, 2);
        } else {
            out.push(c);
        }
        proof {
            assert(out@ =~= escaped(s@, i as nat) + escaped_char(c));
        }
        i += 1;
    }
    out
}

/// Number of bytes equal to `b` among the first `count` bytes of a line.
pub open spec fn count_byte(line: Seq<u8>, b: u8, count: nat) -> nat
    decreases count,
{
    if count == 0 || count > line.len() {
        0
    } else {
        count_byte(line, b, (count - 1) as nat) + if line[count - 1] == b {
            1nat
        } else {
            0nat
        }
    }
}

/// Number of bytes equal to `b` in the first `count` lines.
pub open spec fn count_in_lines(ls: Seq<Seq<u8>>, b: u8, count: nat) -> nat
    decreases count,
{
    if count == 0 || count > ls.len() {
        0
    } else {
        count_in_lines(ls, b, (count - 1) as nat) + count_byte(
            ls[count - 1],
            b,
            ls[count - 1].len(),
        )
    }
}

/// Number of lines that are looked at to guess a delimiter.
pub const DELIMITER_SAMPLE_LINES: usize = 5;

/// How often a byte occurs in the first five lines of a content.
pub open spec fn delimiter_count(bytes: Seq<u8>, b: u8) -> nat {
    count_in_lines(lines(bytes), b, min_nat(DELIMITER_SAMPLE_LINES as nat, lines(bytes).len()))
}

/// The delimiter with the highest count: of comma, semicolon, tab and bar,
/// in this order, the first whose count no other exceeds.
pub open spec fn best_delimiter(commas: nat, semicolons: nat, tabs: nat, bars: nat) -> char {
    if commas >= semicolons && commas >= tabs && commas >= bars {
        ','
    } else if semicolons >= tabs && semicolons >= bars {
        ';'
    } else if tabs >= bars {
        '\t'
    } else {
        '|'
    }
}

fn count_in(found: &Vec<&[u8]>, b: u8, Ghost(all): Ghost<Seq<Seq<u8>>>) -> (n: u128)
    requires
        found@.len() <= all.len(),
        forall|i: int| 0 <= i < found@.len() ==> (#[trigger] found@[i])@ == all[i],
        found@.len() <= DELIMITER_SAMPLE_LINES,
    ensures
        n == count_in_lines(all, b, found@.len() as nat),
{
    let mut n: u128 = 0;
    let mut i: usize = 0;
    while i < found.len()
        invariant
            i <= found@.len() <= all.len(),
            found@.len() <= DELIMITER_SAMPLE_LINES,
            forall|k: int| 0 <= k < found@.len() ==> (#[trigger] found@[k])@ == all[k],
            n == count_in_lines(all, b, i as nat),
            n <= i * 0x1_0000_0000_0000_0000,
        decreases found@.len() - i,
    {
        let line = found[i];
        let mut m: usize = 0;
        let mut j: usize = 0;
        while j < line.len()
            invariant
                j <= line@.len(),
                m == count_byte(line@, b, j as nat),
                m <= j,
            decreases line@.len() - j,
        {
            if line[j] == b {
                m += 1;
            }
            j += 1;
        }
        n = n + m as u128;
        i += 1;
    }
    n
}

/// Guesses the delimiter of a table from its first five lines: of comma,
/// semicolon, tab and bar the one that occurs most often, and the comma
/// where none occurs.
pub fn detect_csv_delimiter(content: &str) -> (delimiter: char)
    ensures
        delimiter == best_delimiter(
            delimiter_count(encode_utf8(content@), 0x2c),
            delimiter_count(encode_utf8(content@), 0x3b),
            delimiter_count(encode_utf8(content@), 0x09),
            delimiter_count(encode_utf8(content@), 0x7c),
        ),
{
    let bytes = content.as_bytes();
    let found = split_lines(bytes, DELIMITER_SAMPLE_LINES);
    let commas = count_in(&found, 0x2c, Ghost(lines(bytes@)));
    let semicolons = count_in(&found, 0x3b, Ghost(lines(bytes@)));
    let tabs = count_in(&found, 0x09, Ghost(lines(bytes@)));
    let bars = count_in(&found, 0x7c, Ghost(lines(bytes@)));
    if commas >= semicolons && commas >= tabs && commas >= bars {
        ','
    } else if semicolons >= tabs && semicolons >= bars {
        ';'
    } else if tabs >= bars {
        '\t'
    } else {
        '|'
    }
}

} // verus!
