//! JSON under the three strategies: one document loaded whole, or a run of
//! values read one by one from a stream or from the leading window of a
//! mapped file.

use crate::error::{outcome_view, ViewError, ViewErrorModel};
use crate::strategy::{
    select_strategy, strategy_for, ViewStrategy, LARGE_FILE_THRESHOLD, SMALL_FILE_THRESHOLD,
};
use crate::textfmt::{decimal, decode_strict, push_decimal};
use crate::viewer::structured::{json_pretty, not_utf8, pretty_json, text_result};
use crate::viewer::text::{
    limit_or_default, lookahead, preview_note, preview_window, push_preview_note, push_rule,
    rule_line, window_len, DEFAULT_PREVIEW_SIZE, MAX_PREVIEW_ITEMS,
};
use vstd::prelude::*;
use vstd::string::*;
use vstd::utf8::{decode_utf8, valid_utf8};

verus! {

/// A value of a stream in pretty form, or the message of an error of the
/// stream.
pub type JsonItem = Result<String, String>;

/// An item as a value of specifications.
pub type JsonItemModel = Result<Seq<char>, Seq<char>>;

/// The items that `serde_json` yields for a content as a stream of values:
/// each value in pretty form, each error with its message.
pub uninterp spec fn json_stream(content: Seq<u8>) -> Seq<JsonItemModel>;

/// Items as values of specifications.
pub open spec fn items_view(items: Seq<JsonItem>) -> Seq<JsonItemModel> {
    Seq::new(items.len(), |i: int| text_result(items[i]))
}

/// The first `limit` items, or all of them where there are fewer.
pub open spec fn first_items(items: Seq<JsonItemModel>, limit: nat) -> Seq<JsonItemModel> {
    if items.len() <= limit {
        items
    } else {
        items.take(limit as int)
    }
}

/// Reads the first `limit` items of a content with the stream that
/// `serde_json::Deserializer::from_reader` and `into_iter` make, and writes
/// each value with `serde_json::to_string_pretty`. The stream goes on
/// behind the error of characters that trail a value, and ends at any
/// other error; the items are what it yields, in its order.
#[verifier::external_body]
pub(crate) fn read_json_items(content: &[u8], limit: usize) -> (items: Vec<JsonItem>)
    ensures
        items_view(items@) == first_items(json_stream(content@), limit as nat),
{
    serde_json::Deserializer::from_reader(content).into_iter::<serde_json::Value>().take(limit).map(
        |outcome|
            match outcome {
                Ok(value) => serde_json::to_string_pretty(&value).map_err(|e| e.to_string()),
                Err(error) => Err(error.to_string()),
            },
    ).collect()
}

/// The items that a view under a limit reads: one more than the limit, as
/// far as the machine can count.
pub open spec fn listed_items(content: Seq<u8>, max_items: nat) -> Seq<JsonItemModel> {
    first_items(
        json_stream(content),
        if max_items < usize::MAX {
            max_items + 1
        } else {
            max_items
        },
    )
}

/// The view of the items from index `from` on: each value in pretty form,
/// with a line feed between two of them, until `max_items` were shown, then
/// `notice` if an item is left over. An error ends the view; `report` says
/// whether it is reported.
pub open spec fn items_listing(
    items: Seq<JsonItemModel>,
    from: nat,
    max_items: nat,
    report: bool,
    notice: Seq<char>,
) -> Seq<char>
    decreases items.len() - from,
{
    if from >= items.len() {
        Seq::empty()
    } else if from >= max_items {
        notice
    } else {
        match items[from as int] {
            Ok(pretty) => (if from > 0 {
                seq!['\n']
            } else {
                Seq::empty()
            }) + pretty + items_listing(items, from + 1, max_items, report, notice),
            Err(message) => if report {
                "\nError parsing JSON at item "@ + decimal(from + 1) + ": "@ + message
            } else {
                Seq::empty()
            },
        }
    }
}

/// Renders items that were read from a stream, of which one more than
/// `max_items` were read at most.
pub fn push_items_listing(
    out: &mut String,
    items: &Vec<JsonItem>,
    max_items: usize,
    report: bool,
    notice: &str,
)
    ensures
        final(out)@ == old(out)@ + items_listing(
            items_view(items@),
            0,
            max_items as nat,
            report,
            notice@,
        ),
{
    let ghost model = items_view(items@);
    let ghost all = items_listing(model, 0, max_items as nat, report, notice@);
    let mut i: usize = 0;
    while i < items.len()
        invariant
            i <= items@.len(),
            model == items_view(items@),
            all == items_listing(model, 0, max_items as nat, report, notice@),
            out@ + items_listing(model, i as nat, max_items as nat, report, notice@) == old(out)@
                + all,
        decreases items@.len() - i,
    {
        let ghost before = out@;
        let ghost rest = items_listing(model, i as nat, max_items as nat, report, notice@);
        proof {
            assert(model[i as int] == text_result(items@[i as int]));
        }
        if i >= max_items {
            out.append(notice);
            assert(out@ == before + rest);
            return ;
        }
        match &items[i] {
            Ok(pretty) => {
                if i > 0 {
                    out.push('\n');
                }
                out.append(pretty.as_str());
                proof {
                    assert(out@ + items_listing(
                        model,
                        (i + 1) as nat,
                        max_items as nat,
                        report,
                        notice@,
                    ) =~= before + rest);
                }
            },
            Err(message) => {
                if report {
                    out.append("\nError parsing JSON at item ");
                    push_decimal(out, (i as u64) + 1);
                    out.append(": ");
                    out.append(message.as_str());
                }
                assert(out@ =~= before + rest);
                return ;
            },
        }
        i += 1;
    }
}

/// The view of a JSON file that was loaded whole: the one document in it,
/// in pretty form; the parser's message where the content is no JSON document.
pub open spec fn json_full_load(content: Seq<u8>) -> Result<Seq<char>, ViewErrorModel> {
    if !valid_utf8(content) {
        Err(ViewErrorModel::Parse(not_utf8()))
    } else {
        match json_pretty(decode_utf8(content)) {
            Ok(pretty) => Ok(pretty),
            Err(message) => Err(ViewErrorModel::Parse(message)),
        }
    }
}

/// Views a JSON file that was loaded whole. No limit on items applies.
pub fn view_json_full_load(content: &[u8]) -> (out: Result<String, ViewError>)
    ensures
        outcome_view(out) == json_full_load(content@),
{
    match decode_strict(content) {
        Some(text) => match pretty_json(text.as_str()) {
            Ok(pretty) => Ok(pretty),
            Err(message) => Err(ViewError::Parse(message)),
        },
        None => Err(ViewError::Parse("stream did not contain valid UTF-8".to_owned())),
    }
}

/// The notice that items were left out of a streamed view.
pub open spec fn stream_notice(max_items: nat) -> Seq<char> {
    "\n... (showing first "@ + decimal(max_items) + " items of large file)\n"@
}

/// The notice that items of the window were left out of a mapped view.
pub open spec fn window_notice(max_items: nat, window: nat) -> Seq<char> {
    "\n... (showing first "@ + decimal(max_items) + " items from "@ + decimal(window)
        + " bytes preview)\n"@
}

/// The view of a streamed JSON file: a banner, the first `max_items`
/// values, a notice where values are left over, or the report of the error
/// that ended the stream.
pub open spec fn json_streaming(path: Seq<char>, content: Seq<u8>, max_items: nat) -> Seq<char> {
    "📋 JSON File: "@ + path + " (Streaming)\n"@ + rule_line(60) + items_listing(
        listed_items(content, max_items),
        0,
        max_items,
        true,
        stream_notice(max_items),
    )
}

/// Views a JSON file as a stream of values.
pub fn view_json_streaming(path: &str, content: &[u8], max_items: usize) -> (out: String)
    ensures
        out@ == json_streaming(path@, content@, max_items as nat),
{
    let items = read_json_items(content, lookahead(max_items));
    let mut notice = String::new();
    notice.append("\n... (showing first ");
    push_decimal(&mut notice, max_items as u64);
    notice.append(" items of large file)\n");
    let mut out = String::new();
    out.append("📋 JSON File: ");
    out.append(path);
    out.append(" (Streaming)\n");
    push_rule(&mut out, 60);
    push_items_listing(&mut out, &items, max_items, true, notice.as_str());
    out
}

/// The view of a mapped JSON file: a banner with the file's size, the
/// first `max_items` values of the leading window, a notice where values of
/// the window are left over, and a note where the file is larger than the
/// window. An error ends the view without a report: it is most likely the
/// window's edge.
pub open spec fn json_memory_mapped(
    path: Seq<char>,
    content: Seq<u8>,
    preview_size: nat,
    max_items: nat,
) -> Seq<char> {
    let window = window_len(content.len(), preview_size);
    let preview = content.take(window as int);
    "📋 JSON File: "@ + path + " ("@ + decimal(content.len()) + " bytes, Memory-Mapped)\n"@
        + rule_line(60) + items_listing(
        listed_items(preview, max_items),
        0,
        max_items,
        false,
        window_notice(max_items, window),
    ) + preview_note(window, content.len())
}

/// Views the leading window of a mapped JSON file.
pub fn view_json_memory_mapped(
    path: &str,
    content: &[u8],
    preview_size: usize,
    max_items: usize,
) -> (out: String)
    ensures
        out@ == json_memory_mapped(path@, content@, preview_size as nat, max_items as nat),
{
    let preview = preview_window(content, preview_size);
    let items = read_json_items(preview, lookahead(max_items));
    let mut notice = String::new();
    notice.append("\n... (showing first ");
    push_decimal(&mut notice, max_items as u64);
    notice.append(" items from ");
    push_decimal(&mut notice, preview.len() as u64);
    notice.append(" bytes preview)\n");
    let mut out = String::new();
    out.append("📋 JSON File: ");
    out.append(path);
    out.append(" (");
    push_decimal(&mut out, content.len() as u64);
    out.append(" bytes, Memory-Mapped)\n");
    push_rule(&mut out, 60);
    push_items_listing(&mut out, &items, max_items, false, notice.as_str());
    push_preview_note(&mut out, preview.len(), content.len());
    out
}

/// The view of a JSON file by the strategy that its size calls for.
pub open spec fn large_json(path: Seq<char>, content: Seq<u8>, max_items: Option<usize>) -> Result<
    Seq<char>,
    ViewErrorModel,
> {
    let max = limit_or_default(max_items);
    match strategy_for(content.len() as u64, SMALL_FILE_THRESHOLD, LARGE_FILE_THRESHOLD) {
        ViewStrategy::FullLoad => json_full_load(content),
        ViewStrategy::Streaming => Ok(json_streaming(path, content, max)),
        ViewStrategy::MemoryMapped => Ok(
            json_memory_mapped(path, content, DEFAULT_PREVIEW_SIZE as nat, max),
        ),
    }
}

/// Views a JSON file by the strategy that its size calls for, with a limit
/// of a hundred items where none is given.
pub fn view_large_json(path: &str, content: &[u8], max_items: Option<usize>) -> (out: Result<
    String,
    ViewError,
>)
    ensures
        outcome_view(out) == large_json(path@, content@, max_items),
{
    let max: usize = match max_items {
        Some(n) => n,
        None => MAX_PREVIEW_ITEMS,
    };
    match select_strategy(content.len() as u64) {
        ViewStrategy::FullLoad => view_json_full_load(content),
        ViewStrategy::Streaming => Ok(view_json_streaming(path, content, max)),
        ViewStrategy::MemoryMapped => Ok(
            view_json_memory_mapped(path, content, DEFAULT_PREVIEW_SIZE, max),
        ),
    }
}

} // verus!
