//! Raw bytes: the file type that the leading bytes give away, and a hex dump
//! of sixteen bytes a row.

use crate::textfmt::{decimal, hexadecimal, pad_left, push_decimal, push_hexadecimal_padded};
use crate::viewer::text::{concat_first, min_nat, push_rule, rule_line};
use vstd::prelude::*;
use vstd::slice::slice_subrange;
use vstd::string::*;

verus! {

/// Bytes that are dumped where the caller names no limit.
pub const DEFAULT_MAX_BYTES: usize = 1024;

/// Bytes in one row of a dump.
pub const ROW_BYTES: usize = 16;

/// Whether a byte is shown as itself in the text column of a dump: the
/// visible ASCII characters and the space.
pub open spec fn is_printable(b: u8) -> bool {
    0x20 <= b <= 0x7e
}

/// Whether a byte may occur in a text file: a printable byte, a tab, a line
/// feed or a carriage return.
pub open spec fn is_text_byte(b: u8) -> bool {
    is_printable(b) || b == 0x09 || b == 0x0a || b == 0x0d
}

/// Whether `b` starts with the bytes of `magic`.
pub open spec fn starts_with(b: Seq<u8>, magic: Seq<u8>) -> bool {
    b.len() >= magic.len() && b.take(magic.len() as int) == magic
}

/// The file type that the first four bytes of a buffer give away. A buffer
/// of fewer than four bytes has none; one without a known signature is a
/// text file if it holds text bytes only, and an unknown binary otherwise.
pub open spec fn file_type(b: Seq<u8>) -> Option<Seq<char>> {
    if b.len() < 4 {
        None
    } else if b[0] == 0x89 && b[1] == 0x50 && b[2] == 0x4e && b[3] == 0x47 {
        Some("PNG Image"@)
    } else if b[0] == 0xff && b[1] == 0xd8 && b[2] == 0xff {
        Some("JPEG Image"@)
    } else if b[0] == 0x47 && b[1] == 0x49 && b[2] == 0x46 && b[3] == 0x38 {
        Some("GIF Image"@)
    } else if b[0] == 0x25 && b[1] == 0x50 && b[2] == 0x44 && b[3] == 0x46 {
        Some("PDF Document"@)
    } else if b[0] == 0x50 && b[1] == 0x4b && b[2] == 0x03 && b[3] == 0x04 {
        Some("ZIP Archive"@)
    } else if b[0] == 0x50 && b[1] == 0x4b && b[2] == 0x05 && b[3] == 0x06 {
        Some("ZIP Archive (empty)"@)
    } else if b[0] == 0x50 && b[1] == 0x4b && b[2] == 0x07 && b[3] == 0x08 {
        Some("ZIP Archive (spanned)"@)
    } else if b[0] == 0x1f && b[1] == 0x8b && b[2] == 0x08 {
        Some("GZIP Archive"@)
    } else if b[0] == 0x42 && b[1] == 0x5a && b[2] == 0x68 {
        Some("BZIP2 Archive"@)
    } else if b[0] == 0x7f && b[1] == 0x45 && b[2] == 0x4c && b[3] == 0x46 {
        Some("ELF Executable"@)
    } else if b[0] == 0x4d && b[1] == 0x5a {
        Some("Windows Executable"@)
    } else if forall|i: int| 0 <= i < b.len() ==> is_text_byte(#[trigger] b[i]) {
        Some("Text File"@)
    } else {
        Some("Unknown Binary"@)
    }
}

/// Whether every byte of `b` is a text byte.
pub fn all_text_bytes(b: &[u8]) -> (all: bool)
    ensures
        all == forall|i: int| 0 <= i < b@.len() ==> is_text_byte(#[trigger] b@[i]),
{
    let mut i: usize = 0;
    while i < b.len()
        invariant
            i <= b@.len(),
            forall|k: int| 0 <= k < i ==> is_text_byte(#[trigger] b@[k]),
        decreases b@.len() - i,
    {
        let byte = b[i];
        let text = (0x20 <= byte && byte <= 0x7e) || byte == 0x09 || byte == 0x0a || byte == 0x0d;
        if !text {
            return false;
        }
        i += 1;
    }
    true
}

/// The file type that the leading bytes of `buffer` give away.
pub fn detect_file_type(buffer: &[u8]) -> (kind: Option<&'static str>)
    ensures
        kind is Some == file_type(buffer@) is Some,
        kind matches Some(name) ==> Some(name@) == file_type(buffer@),
{
    if buffer.len() < 4 {
        return None;
    }
    let b0 = buffer[0];
    let b1 = buffer[1];
    let b2 = buffer[2];
    let b3 = buffer[3];
    if b0 == 0x89 && b1 == 0x50 && b2 == 0x4e && b3 == 0x47 {
        Some("PNG Image")
    } else if b0 == 0xff && b1 == 0xd8 && b2 == 0xff {
        Some("JPEG Image")
    } else if b0 == 0x47 && b1 == 0x49 && b2 == 0x46 && b3 == 0x38 {
        Some("GIF Image")
    } else if b0 == 0x25 && b1 == 0x50 && b2 == 0x44 && b3 == 0x46 {
        Some("PDF Document")
    } else if b0 == 0x50 && b1 == 0x4b && b2 == 0x03 && b3 == 0x04 {
        Some("ZIP Archive")
    } else if b0 == 0x50 && b1 == 0x4b && b2 == 0x05 && b3 == 0x06 {
        Some("ZIP Archive (empty)")
    } else if b0 == 0x50 && b1 == 0x4b && b2 == 0x07 && b3 == 0x08 {
        Some("ZIP Archive (spanned)")
    } else if b0 == 0x1f && b1 == 0x8b && b2 == 0x08 {
        Some("GZIP Archive")
    } else if b0 == 0x42 && b1 == 0x5a && b2 == 0x68 {
        Some("BZIP2 Archive")
    } else if b0 == 0x7f && b1 == 0x45 && b2 == 0x4c && b3 == 0x46 {
        Some("ELF Executable")
    } else if b0 == 0x4d && b1 == 0x5a {
        Some("Windows Executable")
    } else if all_text_bytes(buffer) {
        Some("Text File")
    } else {
        Some("Unknown Binary")
    }
}

/// The eight bytes that every PNG file starts with.
pub open spec fn png_signature() -> Seq<u8> {
    seq![0x89u8, 0x50u8, 0x4eu8, 0x47u8, 0x0du8, 0x0au8, 0x1au8, 0x0au8]
}

/// The file type by its full signature: PNG by eight bytes, JPEG by three,
/// PDF by five, ZIP by four; anything else is an unknown binary.
pub open spec fn binary_file_type(data: Seq<u8>) -> Seq<char> {
    if starts_with(data, png_signature()) {
        "PNG Image"@
    } else if starts_with(data, seq![0xffu8, 0xd8u8, 0xffu8]) {
        "JPEG Image"@
    } else if starts_with(data, seq![0x25u8, 0x50u8, 0x44u8, 0x46u8, 0x2du8]) {
        "PDF Document"@
    } else if starts_with(data, seq![0x50u8, 0x4bu8, 0x03u8, 0x04u8]) {
        "ZIP Archive"@
    } else {
        "Unknown Binary"@
    }
}

/// The file type of `data` by its full signature.
pub fn detect_binary_file_type(data: &[u8]) -> (name: &'static str)
    ensures
        name@ == binary_file_type(data@),
{
    let n = data.len();
    if n >= 8 && data[0] == 0x89 && data[1] == 0x50 && data[2] == 0x4e && data[3] == 0x47
        && data[4] == 0x0d && data[5] == 0x0a && data[6] == 0x1a && data[7] == 0x0a {
        assert(data@.take(8) =~= png_signature());
        "PNG Image"
    } else if n >= 3 && data[0] == 0xff && data[1] == 0xd8 && data[2] == 0xff {
        assert(data@.take(3) =~= seq![0xffu8, 0xd8u8, 0xffu8]);
        assert(!starts_with(data@, png_signature())) by {
            if n >= 8 {
                assert(data@.take(8)[0] == data@[0]);
            }
        }
        "JPEG Image"
    } else if n >= 5 && data[0] == 0x25 && data[1] == 0x50 && data[2] == 0x44 && data[3] == 0x46
        && data[4] == 0x2d {
        assert(data@.take(5) =~= seq![0x25u8, 0x50u8, 0x44u8, 0x46u8, 0x2du8]);
        assert(!starts_with(data@, png_signature())) by {
            if n >= 8 {
                assert(data@.take(8)[0] == data@[0]);
            }
        }
        assert(!starts_with(data@, seq![0xffu8, 0xd8u8, 0xffu8])) by {
            assert(data@.take(3)[0] == data@[0]);
        }
        "PDF Document"
    } else if n >= 4 && data[0] == 0x50 && data[1] == 0x4b && data[2] == 0x03 && data[3] == 0x04 {
        assert(data@.take(4) =~= seq![0x50u8, 0x4bu8, 0x03u8, 0x04u8]);
        assert(!starts_with(data@, png_signature())) by {
            if n >= 8 {
                assert(data@.take(8)[0] == data@[0]);
            }
        }
        assert(!starts_with(data@, seq![0xffu8, 0xd8u8, 0xffu8])) by {
            assert(data@.take(3)[0] == data@[0]);
        }
        assert(!starts_with(data@, seq![0x25u8, 0x50u8, 0x44u8, 0x46u8, 0x2du8])) by {
            if n >= 5 {
                assert(data@.take(5)[0] == data@[0]);
            }
        }
        "ZIP Archive"
    } else {
        assert(!starts_with(data@, png_signature())) by {
            if n >= 8 {
                let t = data@.take(8);
                assert(t[0] == data@[0] && t[1] == data@[1] && t[2] == data@[2] && t[3] == data@[3]
                    && t[4] == data@[4] && t[5] == data@[5] && t[6] == data@[6] && t[7]
                    == data@[7]);
            }
        }
        assert(!starts_with(data@, seq![0xffu8, 0xd8u8, 0xffu8])) by {
            if n >= 3 {
                let t = data@.take(3);
                assert(t[0] == data@[0] && t[1] == data@[1] && t[2] == data@[2]);
            }
        }
        assert(!starts_with(data@, seq![0x25u8, 0x50u8, 0x44u8, 0x46u8, 0x2du8])) by {
            if n >= 5 {
                let t = data@.take(5);
                assert(t[0] == data@[0] && t[1] == data@[1] && t[2] == data@[2] && t[3] == data@[3]
                    && t[4] == data@[4]);
            }
        }
        assert(!starts_with(data@, seq![0x50u8, 0x4bu8, 0x03u8, 0x04u8])) by {
            if n >= 4 {
                let t = data@.take(4);
                assert(t[0] == data@[0] && t[1] == data@[1] && t[2] == data@[2] && t[3]
                    == data@[3]);
            }
        }
        "Unknown Binary"
    }
}

/// A byte in the text column of a dump: itself where it is printable, a dot
/// where it is not.
pub open spec fn gutter_char(b: u8) -> char {
    if is_printable(b) {
        b as char
    } else {
        '.'
    }
}

/// The text column of a row.
pub open spec fn gutter(chunk: Seq<u8>) -> Seq<char> {
    Seq::new(chunk.len(), |i: int| gutter_char(chunk[i]))
}

/// Cell `k` of a row: two hexadecimal digits and a space, or three spaces
/// where the row has no byte `k`; one more space stands before cell eight.
pub open spec fn hex_cell(chunk: Seq<u8>, k: int) -> Seq<char> {
    (if k == 8 {
        seq![' ']
    } else {
        Seq::empty()
    }) + (if k < chunk.len() {
        pad_left(hexadecimal(chunk[k] as nat), 2, '0') + seq![' ']
    } else {
        "   "@
    })
}

/// The first `count` cells of a row.
pub open spec fn hex_cells(chunk: Seq<u8>, count: nat) -> Seq<char>
    decreases count,
{
    if count == 0 {
        Seq::empty()
    } else {
        hex_cells(chunk, (count - 1) as nat) + hex_cell(chunk, count - 1)
    }
}

/// One row of a dump: the offset in eight hexadecimal digits, sixteen cells,
/// and the text column between bars.
pub open spec fn hex_row(offset: nat, chunk: Seq<u8>) -> Seq<char> {
    pad_left(hexadecimal(offset), 8, '0') + "  "@ + hex_cells(chunk, ROW_BYTES as nat) + " |"@
        + gutter(chunk) + "|\n"@
}

/// Number of rows that a dump of `len` bytes has.
pub open spec fn row_count(len: nat) -> nat {
    (len + 15) / 16
}

/// The bytes of row `i` of a dump of `data`.
pub open spec fn row_chunk(data: Seq<u8>, i: int) -> Seq<u8> {
    data.subrange(16 * i, if 16 * i + 16 <= data.len() {
        16 * i + 16
    } else {
        data.len() as int
    })
}

/// The rows of a dump of `data` whose first byte has the offset `offset`.
pub open spec fn hex_rows(data: Seq<u8>, offset: nat) -> Seq<Seq<char>> {
    Seq::new(row_count(data.len()), |i: int| hex_row((offset + 16 * i) as nat, row_chunk(data, i)))
}

/// The dump of `data`: its rows, one after the other.
pub open spec fn hex_dump(data: Seq<u8>, offset: nat) -> Seq<char> {
    concat_first(hex_rows(data, offset), row_count(data.len()))
}

fn push_hex_row(out: &mut String, offset: u64, chunk: &[u8])
    requires
        chunk@.len() <= 16,
    ensures
        final(out)@ == old(out)@ + hex_row(offset as nat, chunk@),
{
    push_hexadecimal_padded(out, offset, 8);
    out.append("  ");
    let ghost head = out@;
    let mut k: usize = 0;
    while k < 16
        invariant
            k <= 16,
            chunk@.len() <= 16,
            out@ == head + hex_cells(chunk@, k as nat),
        decreases 16 - k,
    {
        if k == 8 {
            out.push(' ');
        }
        if k < chunk.len() {
            push_hexadecimal_padded(out, chunk[k] as u64, 2);
            out.push(' ');
        } else {
            out.append("   ");
        }
        proof {
            assert(out@ =~= head + hex_cells(chunk@, k as nat) + hex_cell(chunk@, k as int));
        }
        k += 1;
    }
    out.append(" |");
    let ghost head = out@;
    let mut j: usize = 0;
    while j < chunk.len()
        invariant
            j <= chunk@.len(),
            out@ =~= head + gutter(chunk@).take(j as int),
        decreases chunk@.len() - j,
    {
        let byte = chunk[j];
        if 0x20 <= byte && byte <= 0x7e {
            out.push(byte as char);
        } else {
            out.push('.');
        }
        proof {
            assert(gutter(chunk@).take(j + 1) =~= gutter(chunk@).take(j as int).push(
                gutter_char(chunk@[j as int]),
            ));
        }
        j += 1;
    }
    proof {
        assert(gutter(chunk@).take(chunk@.len() as int) =~= gutter(chunk@));
    }
    out.append("|\n");
}

/// Appends the dump of `data` to `out`.
pub fn push_hex_dump(out: &mut String, data: &[u8], offset: usize)
    requires
        offset + data@.len() <= u64::MAX,
    ensures
        final(out)@ == old(out)@ + hex_dump(data@, offset as nat),
{
    let ghost rows = hex_rows(data@, offset as nat);
    let len = data.len();
    let count: usize = if len % 16 == 0 {
        len / 16
    } else {
        len / 16 + 1
    };
    let mut i: usize = 0;
    while i < count
        invariant
            i <= count,
            len == data@.len(),
            count == row_count(data@.len()),
            offset + data@.len() <= u64::MAX,
            rows == hex_rows(data@, offset as nat),
            out@ == old(out)@ + concat_first(rows, i as nat),
        decreases count - i,
    {
        let start: usize = 16 * i;
        let end: usize = if len - start >= 16 {
            start + 16
        } else {
            len
        };
        let chunk = slice_subrange(data, start, end);
        push_hex_row(out, offset as u64 + start as u64, chunk);
        proof {
            assert(chunk@ == row_chunk(data@, i as int));
            assert(rows[i as int] == hex_row((offset + 16 * i) as nat, chunk@));
            assert(concat_first(rows, (i + 1) as nat) == concat_first(rows, i as nat) + rows[i as int]);
        }
        i += 1;
    }
}

/// The dump of `data`, whose first byte has the offset `offset`: sixteen
/// bytes a row, each row with its offset, the bytes in hexadecimal and as text.
pub fn format_hex_dump(data: &[u8], offset: usize) -> (out: String)
    requires
        offset + data@.len() <= u64::MAX,
    ensures
        out@ == hex_dump(data@, offset as nat),
{
    let mut out = String::new();
    push_hex_dump(&mut out, data, offset);
    out
}

/// Number of bytes to read of a file of `file_size` bytes: the limit, or
/// 1024 where none is given, but no more than the file holds.
pub open spec fn binary_read_len(max_bytes: Option<usize>, file_size: nat) -> nat {
    min_nat(
        match max_bytes {
            Some(max) => max as nat,
            None => DEFAULT_MAX_BYTES as nat,
        },
        file_size,
    )
}

/// Number of bytes to read of a file of `file_size` bytes.
pub fn binary_read_size(max_bytes: Option<usize>, file_size: u64) -> (n: usize)
    ensures
        n == binary_read_len(max_bytes, file_size as nat),
{
    let max: usize = match max_bytes {
        Some(max) => max,
        None => DEFAULT_MAX_BYTES,
    };
    if (max as u64) <= file_size {
        max
    } else {
        file_size as usize
    }
}

/// The view of the bytes read from the start of a file of `file_size`
/// bytes: a banner, the file type where one is found, the dump, and a notice
/// where the file holds more than was read.
pub open spec fn binary_view(path: Seq<char>, buffer: Seq<u8>, file_size: nat) -> Seq<char> {
    "🔢 Binary File: "@ + path + " ("@ + decimal(file_size) + " bytes)\n"@ + rule_line(80) + (
    match file_type(buffer) {
        Some(name) => "File Type: "@ + name + "\n\n"@,
        None => Seq::empty(),
    }) + "Hex Dump:\n"@ + hex_dump(buffer, 0) + (if buffer.len() < file_size {
        "\n... (showing first "@ + decimal(buffer.len()) + " bytes of "@ + decimal(file_size)
            + ")\n"@
    } else {
        Seq::empty()
    })
}

/// Renders the bytes that were read from the start of a file of
/// `file_size` bytes.
pub fn render_binary(path: &str, buffer: &[u8], file_size: u64) -> (out: String)
    ensures
        out@ == binary_view(path@, buffer@, file_size as nat),
{
    let mut out = String::new();
    out.append("🔢 Binary File: ");
    out.append(path);
    out.append(" (");
    push_decimal(&mut out, file_size);
    out.append(" bytes)\n");
    push_rule(&mut out, 80);
    match detect_file_type(buffer) {
        Some(name) => {
            out.append("File Type: ");
            out.append(name);
            out.append("\n\n");
        },
        None => {},
    }
    let read = buffer.len() as u64;
    out.append("Hex Dump:\n");
    push_hex_dump(&mut out, buffer, 0);
    if read < file_size {
        out.append("\n... (showing first ");
        push_decimal(&mut out, read);
        out.append(" bytes of ");
        push_decimal(&mut out, file_size);
        out.append(")\n");
    }
    out
}

/// Views a file as raw bytes: its first `max_bytes` bytes, or 1024 where no
/// limit is given.
pub fn view_binary_file(path: &str, content: &[u8], max_bytes: Option<usize>) -> (out: String)
    ensures
        out@ == binary_view(
            path@,
            content@.take(binary_read_len(max_bytes, content@.len()) as int),
            content@.len(),
        ),
{
    let size = content.len() as u64;
    let n = binary_read_size(max_bytes, size);
    render_binary(path, slice_subrange(content, 0, n), size)
}

} // verus!
