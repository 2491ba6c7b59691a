//! Plain text: the lines of a file, whole, streamed under a line limit, or
//! from the leading window of a mapped file.

use crate::lines::{is_whole_line, lemma_lines_of_prefix, lines, split_lines};
use crate::strategy::{
    select_strategy, strategy_for, ViewStrategy, LARGE_FILE_THRESHOLD, SMALL_FILE_THRESHOLD,
};
use crate::textfmt::{
    decimal, decode_lossy, lossy_text, pad_left, push_decimal, push_decimal_padded,
    push_repeated, repeated,
};
use vstd::slice::slice_subrange;
use vstd::prelude::*;
use vstd::string::*;

verus! {

/// Lines shown where the caller names no limit.
pub const MAX_PREVIEW_ITEMS: usize = 100;

/// Bytes of a mapped file that are decoded where the caller names no window.
pub const DEFAULT_PREVIEW_SIZE: usize = 65536;

/// The smaller of two numbers.
pub open spec fn min_nat(a: nat, b: nat) -> nat {
    if a <= b {
        a
    } else {
        b
    }
}

/// The first `count` rows, one after the other.
pub open spec fn concat_first(rows: Seq<Seq<char>>, count: nat) -> Seq<char>
    decreases count,
{
    if count == 0 || count > rows.len() {
        Seq::empty()
    } else {
        concat_first(rows, (count - 1) as nat) + rows[count - 1]
    }
}

/// The first `count` rows with `sep` between each two of them.
pub open spec fn join_first(rows: Seq<Seq<char>>, count: nat, sep: Seq<char>) -> Seq<char>
    decreases count,
{
    if count == 0 || count > rows.len() {
        Seq::empty()
    } else if count == 1 {
        rows[0]
    } else {
        join_first(rows, (count - 1) as nat, sep) + sep + rows[count - 1]
    }
}

/// A horizontal rule of `n` box-drawing dashes, and a line feed.
pub open spec fn rule_line(n: nat) -> Seq<char> {
    repeated('─', n) + seq!['\n']
}

/// One line of a listing: its number in a field of four, a bar, its text.
pub open spec fn numbered_line(number: nat, line: Seq<char>) -> Seq<char> {
    pad_left(decimal(number), 4, ' ') + " │ "@ + line + "\n"@
}

/// The decoded lines of `content`, at most `max_lines` of them.
pub open spec fn shown_lines(content: Seq<u8>, max_lines: nat) -> Seq<Seq<char>> {
    Seq::new(
        min_nat(max_lines, lines(content).len()),
        |i: int| lossy_text(lines(content)[i]),
    )
}

/// The numbered rows of a listing of `content` under a limit.
pub open spec fn numbered_rows(content: Seq<u8>, max_lines: nat) -> Seq<Seq<char>> {
    Seq::new(
        min_nat(max_lines, lines(content).len()),
        |i: int| numbered_line((i + 1) as nat, lossy_text(lines(content)[i])),
    )
}

/// The text of a file loaded whole: its first `max_lines` lines, joined by
/// line feeds.
pub open spec fn text_full_load(content: Seq<u8>, max_lines: nat) -> Seq<char> {
    let rows = shown_lines(content, max_lines);
    join_first(rows, rows.len(), seq!['\n'])
}

/// The listing of a streamed file: a banner, the numbered rows, and a notice
/// where the file has more lines than the limit.
pub open spec fn text_streaming(path: Seq<char>, content: Seq<u8>, max_lines: nat) -> Seq<char> {
    let rows = numbered_rows(content, max_lines);
    "📄 Text File: "@ + path + " (Streaming)\n"@ + rule_line(60) + concat_first(rows, rows.len())
        + if lines(content).len() > max_lines {
        "\n... (showing first "@ + decimal(max_lines) + " lines of large file)\n"@
    } else {
        Seq::empty()
    }
}

/// Length of the leading window of a file of `size` bytes.
pub open spec fn window_len(size: nat, preview_size: nat) -> nat {
    min_nat(preview_size, size)
}

/// The note that only a window of the file is shown.
pub open spec fn preview_note(window: nat, size: nat) -> Seq<char> {
    if size > window {
        "\n📊 File too large - showing preview only ("@ + decimal(window) + " of "@ + decimal(size)
            + " bytes)\n"@
    } else {
        Seq::empty()
    }
}

/// The listing of a mapped file: a banner with the size, the numbered rows
/// of the leading window, a notice where the window has more lines than the
/// limit, and a note where the file is larger than the window.
pub open spec fn text_memory_mapped(
    path: Seq<char>,
    content: Seq<u8>,
    preview_size: nat,
    max_lines: nat,
) -> Seq<char> {
    let window = window_len(content.len(), preview_size);
    let preview = content.take(window as int);
    let rows = numbered_rows(preview, max_lines);
    "📄 Text File: "@ + path + " ("@ + decimal(content.len()) + " bytes, Memory-Mapped)\n"@
        + rule_line(60) + concat_first(rows, rows.len()) + (if lines(preview).len() > max_lines {
        "\n... (showing first "@ + decimal(max_lines) + " lines from preview)\n"@
    } else {
        Seq::empty()
    }) + preview_note(window, content.len())
}

/// Appends a rule of `n` dashes and a line feed.
pub fn push_rule(out: &mut String, n: usize)
    ensures
        final(out)@ == old(out)@ + rule_line(n as nat),
{
    push_repeated(out, '─', n);
    out.push('\n');
}

/// One more than `max`, where that fits: the number of lines to look for in
/// order to know whether a file has more than `max`.
pub fn lookahead(max: usize) -> (limit: usize)
    ensures
        limit == if max < usize::MAX {
            max + 1
        } else {
            max as int
        },
{
    if max < usize::MAX {
        max + 1
    } else {
        max
    }
}

/// The first `count` of the given lines as numbered rows.
pub open spec fn numbered_text(texts: Seq<Seq<char>>, count: nat) -> Seq<char>
    decreases count,
{
    if count == 0 || count > texts.len() {
        Seq::empty()
    } else {
        numbered_text(texts, (count - 1) as nat) + numbered_line(count, texts[count - 1])
    }
}

/// Appends lines as numbered rows, the first of them with the number one.
pub fn push_numbered_lines(out: &mut String, texts: &Vec<String>)
    ensures
        final(out)@ == old(out)@ + numbered_text(texts.deep_view(), texts@.len() as nat),
{
    let ghost model = texts.deep_view();
    let mut i: usize = 0;
    while i < texts.len()
        invariant
            i <= texts@.len(),
            model == texts.deep_view(),
            out@ == old(out)@ + numbered_text(model, i as nat),
        decreases texts@.len() - i,
    {
        push_decimal_padded(out, (i as u64) + 1, 4);
        out.append(" │ ");
        out.append(texts[i].as_str());
        out.append("\n");
        proof {
            assert(model[i as int] == texts@[i as int]@);
            assert(out@ =~= old(out)@ + numbered_text(model, (i + 1) as nat));
        }
        i += 1;
    }
}

/// The numbered rows of a content are its decoded lines as numbered rows.
pub proof fn lemma_numbered_rows(content: Seq<u8>, max_lines: nat, count: nat)
    requires
        count <= numbered_rows(content, max_lines).len(),
    ensures
        concat_first(numbered_rows(content, max_lines), count) == numbered_text(
            shown_lines(content, max_lines),
            count,
        ),
    decreases count,
{
    if count > 0 {
        lemma_numbered_rows(content, max_lines, (count - 1) as nat);
    }
}

/// The first `count` of the lines in `found`, decoded.
fn decode_lines(
    found: &Vec<&[u8]>,
    count: usize,
    Ghost(content): Ghost<Seq<u8>>,
    Ghost(max_lines): Ghost<nat>,
) -> (texts: Vec<String>)
    requires
        count <= found@.len(),
        count == min_nat(max_lines, lines(content).len()),
        forall|i: int| 0 <= i < found@.len() ==> (#[trigger] found@[i])@ == lines(content)[i],
    ensures
        texts.deep_view() == shown_lines(content, max_lines),
{
    let mut texts: Vec<String> = Vec::new();
    let mut i: usize = 0;
    while i < count
        invariant
            i <= count <= found@.len(),
            count == min_nat(max_lines, lines(content).len()),
            forall|k: int| 0 <= k < found@.len() ==> (#[trigger] found@[k])@ == lines(content)[k],
            texts@.len() == i,
            forall|k: int| 0 <= k < i ==> (#[trigger] texts@[k])@ == lossy_text(lines(content)[k]),
        decreases count - i,
    {
        texts.push(decode_lossy(found[i]));
        i += 1;
    }
    proof {
        assert(texts.deep_view() =~= shown_lines(content, max_lines));
    }
    texts
}

/// Appends the numbered rows of the first `count` of the lines in `found`.
fn push_numbered_rows(
    out: &mut String,
    found: &Vec<&[u8]>,
    count: usize,
    Ghost(content): Ghost<Seq<u8>>,
    Ghost(max_lines): Ghost<nat>,
)
    requires
        count <= found@.len(),
        count == min_nat(max_lines, lines(content).len()),
        forall|i: int| 0 <= i < found@.len() ==> (#[trigger] found@[i])@ == lines(content)[i],
    ensures
        final(out)@ == old(out)@ + concat_first(
            numbered_rows(content, max_lines),
            count as nat,
        ),
{
    let texts = decode_lines(found, count, Ghost(content), Ghost(max_lines));
    proof {
        lemma_numbered_rows(content, max_lines, count as nat);
    }
    push_numbered_lines(out, &texts);
}

/// Views a file that was loaded whole: its first `max_lines` lines, decoded
/// and joined by line feeds.
pub fn view_text_full_load(content: &[u8], max_lines: usize) -> (out: String)
    ensures
        out@ == text_full_load(content@, max_lines as nat),
        lines(content@).len() <= usize::MAX,
{
    let found = split_lines(content, max_lines);
    let ghost rows = shown_lines(content@, max_lines as nat);
    let mut out = String::new();
    let mut i: usize = 0;
    while i < found.len()
        invariant
            i <= found@.len(),
            rows == shown_lines(content@, max_lines as nat),
            rows.len() == found@.len(),
            forall|k: int| 0 <= k < found@.len() ==> (#[trigger] found@[k])@ == lines(content@)[k],
            out@ == join_first(rows, i as nat, seq!['\n']),
        decreases found@.len() - i,
    {
        let text = decode_lossy(found[i]);
        if i > 0 {
            out.push('\n');
        }
        out.append(text.as_str());
        proof {
            assert(rows[i as int] == text@);
            if i > 0 {
                assert(Seq::<char>::empty().push('\n') == seq!['\n']);
            }
        }
        i += 1;
    }
    out
}

/// Views a file as a stream of lines: a banner, at most `max_lines` numbered
/// lines, and a notice where lines were left out.
pub fn view_text_streaming(path: &str, content: &[u8], max_lines: usize) -> (out: String)
    ensures
        out@ == text_streaming(path@, content@, max_lines as nat),
{
    let found = split_lines(content, lookahead(max_lines));
    let count: usize = if found.len() > max_lines {
        max_lines
    } else {
        found.len()
    };
    let mut out = String::new();
    out.append("📄 Text File: ");
    out.append(path);
    out.append(" (Streaming)\n");
    push_rule(&mut out, 60);
    push_numbered_rows(&mut out, &found, count, Ghost(content@), Ghost(max_lines as nat));
    if found.len() > max_lines {
        out.append("\n... (showing first ");
        push_decimal(&mut out, max_lines as u64);
        out.append(" lines of large file)\n");
    }
    out
}

/// Appends the note that only a window of the file is shown.
pub fn push_preview_note(out: &mut String, window: usize, size: usize)
    ensures
        final(out)@ == old(out)@ + preview_note(window as nat, size as nat),
{
    if size > window {
        out.append("\n📊 File too large - showing preview only (");
        push_decimal(out, window as u64);
        out.append(" of ");
        push_decimal(out, size as u64);
        out.append(" bytes)\n");
    }
}

/// The leading window of a mapped file.
pub fn preview_window(content: &[u8], preview_size: usize) -> (preview: &[u8])
    ensures
        preview@ == content@.take(window_len(content@.len(), preview_size as nat) as int),
        preview@.len() == window_len(content@.len(), preview_size as nat),
{
    let window: usize = if preview_size <= content.len() {
        preview_size
    } else {
        content.len()
    };
    slice_subrange(content, 0, window)
}

/// Views the leading window of a mapped file: a banner with the file's
/// size, at most `max_lines` numbered lines of the window, a notice where
/// lines of the window were left out, and a note where the file is larger
/// than the window.
pub fn view_text_memory_mapped(
    path: &str,
    content: &[u8],
    preview_size: usize,
    max_lines: usize,
) -> (out: String)
    ensures
        out@ == text_memory_mapped(path@, content@, preview_size as nat, max_lines as nat),
{
    let preview = preview_window(content, preview_size);
    let found = split_lines(preview, lookahead(max_lines));
    let count: usize = if found.len() > max_lines {
        max_lines
    } else {
        found.len()
    };
    let mut out = String::new();
    out.append("📄 Text File: ");
    out.append(path);
    out.append(" (");
    push_decimal(&mut out, content.len() as u64);
    out.append(" bytes, Memory-Mapped)\n");
    push_rule(&mut out, 60);
    push_numbered_rows(&mut out, &found, count, Ghost(preview@), Ghost(max_lines as nat));
    if found.len() > max_lines {
        out.append("\n... (showing first ");
        push_decimal(&mut out, max_lines as u64);
        out.append(" lines from preview)\n");
    }
    push_preview_note(&mut out, preview.len(), content.len());
    out
}

/// The limit that stands for none given.
pub open spec fn limit_or_default(limit: Option<usize>) -> nat {
    match limit {
        Some(n) => n as nat,
        None => MAX_PREVIEW_ITEMS as nat,
    }
}

/// The view of a text file by the strategy that its size calls for. A
/// file that is loaded whole is shown with all its lines where no limit is
/// given; a stream and a mapped window are cut to a hundred lines then.
pub open spec fn large_text(path: Seq<char>, content: Seq<u8>, max_lines: Option<usize>) -> Seq<
    char,
> {
    let max = limit_or_default(max_lines);
    match strategy_for(content.len() as u64, SMALL_FILE_THRESHOLD, LARGE_FILE_THRESHOLD) {
        ViewStrategy::FullLoad => text_full_load(
            content,
            match max_lines {
                Some(n) => n as nat,
                None => lines(content).len(),
            },
        ),
        ViewStrategy::Streaming => text_streaming(path, content, max),
        ViewStrategy::MemoryMapped => text_memory_mapped(
            path,
            content,
            DEFAULT_PREVIEW_SIZE as nat,
            max,
        ),
    }
}

/// Views a text file by the strategy that its size calls for. Where no
/// limit is given, a file that is loaded whole is shown with all its lines,
/// and a stream or a mapped window with a hundred.
pub fn view_large_text(path: &str, content: &[u8], max_lines: Option<usize>) -> (out: String)
    ensures
        out@ == large_text(path@, content@, max_lines),
{
    let max: usize = match max_lines {
        Some(n) => n,
        None => MAX_PREVIEW_ITEMS,
    };
    match select_strategy(content.len() as u64) {
        ViewStrategy::FullLoad => match max_lines {
            Some(n) => view_text_full_load(content, n),
            None => {
                let out = view_text_full_load(content, usize::MAX);
                proof {
                    assert(shown_lines(content@, usize::MAX as nat) =~= shown_lines(
                        content@,
                        lines(content@).len(),
                    ));
                }
                out
            },
        },
        ViewStrategy::Streaming => view_text_streaming(path, content, max),
        ViewStrategy::MemoryMapped => view_text_memory_mapped(
            path,
            content,
            DEFAULT_PREVIEW_SIZE,
            max,
        ),
    }
}

/// The rows of a plain listing of `content` under an optional limit.
pub open spec fn plain_rows(content: Seq<u8>, max_lines: Option<usize>) -> Seq<Seq<char>> {
    Seq::new(
        match max_lines {
            Some(max) => min_nat(max as nat, lines(content).len()),
            None => lines(content).len(),
        },
        |i: int| numbered_line((i + 1) as nat, lossy_text(lines(content)[i])),
    )
}

/// The plain listing of a text file: a banner, the numbered rows, and a
/// notice where the file has more lines than the limit.
pub open spec fn text_file(path: Seq<char>, content: Seq<u8>, max_lines: Option<usize>) -> Seq<
    char,
> {
    let rows = plain_rows(content, max_lines);
    "📄 Text File: "@ + path + "\n"@ + rule_line(60) + concat_first(rows, rows.len()) + (
    match max_lines {
        Some(max) if lines(content).len() > max => "\n... (showing first "@ + decimal(max as nat)
            + " lines)\n"@,
        _ => Seq::empty(),
    })
}

/// Views a text file as a plain numbered listing. Invalid UTF-8 is decoded
/// lossily; with a limit, lines beyond it are left out and a notice says so.
pub fn view_text_file(path: &str, content: &[u8], max_lines: Option<usize>) -> (out: String)
    ensures
        out@ == text_file(path@, content@, max_lines),
{
    let limit: usize = match max_lines {
        Some(max) => lookahead(max),
        None => usize::MAX,
    };
    let found = split_lines(content, limit);
    let count: usize = match max_lines {
        Some(max) => if found.len() > max {
            max
        } else {
            found.len()
        },
        None => found.len(),
    };
    let ghost rows = plain_rows(content@, max_lines);
    let mut out = String::new();
    out.append("📄 Text File: ");
    out.append(path);
    out.append("\n");
    push_rule(&mut out, 60);
    let ghost head = out@;
    let mut i: usize = 0;
    while i < count
        invariant
            i <= count <= found@.len(),
            rows == plain_rows(content@, max_lines),
            rows.len() == count,
            forall|k: int| 0 <= k < found@.len() ==> (#[trigger] found@[k])@ == lines(content@)[k],
            out@ == head + concat_first(rows, i as nat),
        decreases count - i,
    {
        push_decimal_padded(&mut out, (i as u64) + 1, 4);
        out.append(" │ ");
        let text = decode_lossy(found[i]);
        out.append(text.as_str());
        out.append("\n");
        proof {
            assert(concat_first(rows, (i + 1) as nat) == concat_first(rows, i as nat) + rows[i as int]);
        }
        i += 1;
    }
    match max_lines {
        Some(max) => {
            if found.len() > max {
                out.append("\n... (showing first ");
                push_decimal(&mut out, max as u64);
                out.append(" lines)\n");
            }
        },
        None => {},
    }
    out
}

/// The rows of a highlighted listing: of the first `count` lines each with
/// its number in front. A line brings its own line ending.
pub open spec fn highlighted_rows(lines: Seq<Seq<char>>, count: nat) -> Seq<char>
    decreases count,
{
    if count == 0 || count > lines.len() {
        Seq::empty()
    } else {
        highlighted_rows(lines, (count - 1) as nat) + pad_left(decimal(count), 4, ' ') + " │ "@
            + lines[count - 1]
    }
}

/// The highlighted listing of a file: a banner with the name of the file
/// and of its syntax, the numbered lines up to the limit, and a notice
/// where lines are left over.
pub open spec fn highlighted_view(
    file_name: Seq<char>,
    syntax: Seq<char>,
    lines: Seq<Seq<char>>,
    max_lines: Option<usize>,
) -> Seq<char> {
    "📄 "@ + file_name + " ("@ + syntax + ")\n"@ + rule_line(60) + match max_lines {
        Some(max) if lines.len() > max => highlighted_rows(lines, max as nat)
            + "\n... (showing first "@ + decimal(max as nat) + " lines)\n"@,
        _ => highlighted_rows(lines, lines.len()),
    }
}

/// Renders the lines of a file that a highlighter has set for the
/// terminal, each with its line ending. With a limit, the caller hands
/// over one line more than the limit, if the file has one.
pub fn render_highlighted(
    file_name: &str,
    syntax: &str,
    lines: &Vec<String>,
    max_lines: Option<usize>,
) -> (out: String)
    ensures
        out@ == highlighted_view(file_name@, syntax@, lines.deep_view(), max_lines),
{
    let ghost texts = lines.deep_view();
    let count: usize = match max_lines {
        Some(max) => if lines.len() > max {
            max
        } else {
            lines.len()
        },
        None => lines.len(),
    };
    let mut out = String::new();
    out.append("📄 ");
    out.append(file_name);
    out.append(" (");
    out.append(syntax);
    out.append(")\n");
    push_rule(&mut out, 60);
    let ghost head = out@;
    let mut i: usize = 0;
    while i < count
        invariant
            i <= count <= lines@.len(),
            texts == lines.deep_view(),
            out@ == head + highlighted_rows(texts, i as nat),
        decreases count - i,
    {
        push_decimal_padded(&mut out, (i as u64) + 1, 4);
        out.append(" │ ");
        out.append(lines[i].as_str());
        proof {
            assert(texts[i as int] == lines@[i as int]@);
            assert(out@ =~= head + highlighted_rows(texts, (i + 1) as nat));
        }
        i += 1;
    }
    match max_lines {
        Some(max) => {
            if lines.len() > max {
                out.append("\n... (showing first ");
                push_decimal(&mut out, max as u64);
                out.append(" lines)\n");
            }
        },
        None => {},
    }
    proof {
        assert(out@ =~= highlighted_view(file_name@, syntax@, texts, max_lines));
    }
    out
}

/// Under a limit of `max_lines`, no strategy shows more than `max_lines`
/// lines of a file: not the whole load, joined or listed, not the stream,
/// not the mapped window.
pub proof fn lemma_line_limit_holds(content: Seq<u8>, preview_size: nat, max_lines: nat)
    ensures
        shown_lines(content, max_lines).len() <= max_lines,
        max_lines <= usize::MAX ==> plain_rows(content, Some(max_lines as usize)).len()
            <= max_lines,
        numbered_rows(content, max_lines).len() <= max_lines,
        numbered_rows(
            content.take(window_len(content.len(), preview_size) as int),
            max_lines,
        ).len() <= max_lines,
{
}

/// The stream and the mapped window show the same rows: row `i` of the
/// streamed listing is row `i` of the mapped one, for every line that lies
/// in the window as a whole. Only the last line of the window can fail to,
/// where the window ends within it.
pub proof fn lemma_streaming_agrees_with_mapped(
    content: Seq<u8>,
    preview_size: nat,
    max_lines: nat,
    i: int,
)
    requires
        i < max_lines,
        is_whole_line(content, window_len(content.len(), preview_size) as int, i),
    ensures
        i < numbered_rows(content, max_lines).len(),
        i < numbered_rows(
            content.take(window_len(content.len(), preview_size) as int),
            max_lines,
        ).len(),
        numbered_rows(content, max_lines)[i] == numbered_rows(
            content.take(window_len(content.len(), preview_size) as int),
            max_lines,
        )[i],
{
    lemma_lines_of_prefix(content, window_len(content.len(), preview_size) as int, i);
}

/// A file that fits into the window is shown alike by the stream and by the
/// mapping, row for row.
pub proof fn lemma_streaming_equals_mapped_within_window(
    content: Seq<u8>,
    preview_size: nat,
    max_lines: nat,
)
    requires
        content.len() <= preview_size,
    ensures
        numbered_rows(content, max_lines) == numbered_rows(
            content.take(window_len(content.len(), preview_size) as int),
            max_lines,
        ),
{
    assert(content.take(content.len() as int) =~= content);
}

} // verus!
