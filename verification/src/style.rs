//! Colours and weights of the pieces of a line for the terminal.

use crate::utils::contains_text;
use colored::Colorize;
use vstd::prelude::*;
use vstd::string::*;

verus! {

/// A colour of the terminal.
#[derive(Debug, Clone, Copy, PartialEq, Eq, Structural)]
pub enum Color {
    Red,
    Green,
    Yellow,
    Blue,
    Magenta,
    Cyan,
    White,
    BrightBlack,
    BrightGreen,
    BrightYellow,
    BrightBlue,
    BrightMagenta,
}

/// How a piece of a line is set: in a colour or in none, bold or not,
/// dimmed or not.
#[derive(Debug, Clone, Copy, PartialEq, Eq, Structural)]
pub struct Style {
    pub color: Option<Color>,
    pub bold: bool,
    pub dimmed: bool,
}

/// A piece of a line with the way it is set.
#[derive(Debug, Clone, PartialEq, Eq)]
pub struct LinePart {
    pub text: String,
    pub style: Style,
}

/// A piece as a value of specifications.
pub struct LinePartModel {
    pub text: Seq<char>,
    pub style: Style,
}

impl DeepView for LinePart {
    type V = LinePartModel;

    open spec fn deep_view(&self) -> LinePartModel {
        LinePartModel { text: self.text@, style: self.style }
    }
}

/// The name by which the `colored` crate knows a colour.
pub open spec fn color_name(color: Color) -> Seq<char> {
    match color {
        Color::Red => "red"@,
        Color::Green => "green"@,
        Color::Yellow => "yellow"@,
        Color::Blue => "blue"@,
        Color::Magenta => "magenta"@,
        Color::Cyan => "cyan"@,
        Color::White => "white"@,
        Color::BrightBlack => "bright black"@,
        Color::BrightGreen => "bright green"@,
        Color::BrightYellow => "bright yellow"@,
        Color::BrightBlue => "bright blue"@,
        Color::BrightMagenta => "bright magenta"@,
    }
}

/// The plain style.
pub open spec fn plain() -> Style {
    Style { color: None, bold: false, dimmed: false }
}

/// The style of a colour.
pub open spec fn colored(color: Color) -> Style {
    Style { color: Some(color), bold: false, dimmed: false }
}

/// The style of a colour in bold.
pub open spec fn bold(color: Color) -> Style {
    Style { color: Some(color), bold: true, dimmed: false }
}

/// The dimmed style.
pub open spec fn dimmed() -> Style {
    Style { color: None, bold: false, dimmed: true }
}

/// The texts of the first `count` pieces, one after the other.
pub open spec fn plain_text(parts: Seq<LinePartModel>, count: nat) -> Seq<char>
    decreases count,
{
    if count == 0 || count > parts.len() {
        Seq::empty()
    } else {
        plain_text(parts, (count - 1) as nat) + parts[count - 1].text
    }
}

fn name_of(color: Color) -> (name: &'static str)
    ensures
        name@ == color_name(color),
{
    match color {
        Color::Red => "red",
        Color::Green => "green",
        Color::Yellow => "yellow",
        Color::Blue => "blue",
        Color::Magenta => "magenta",
        Color::Cyan => "cyan",
        Color::White => "white",
        Color::BrightBlack => "bright black",
        Color::BrightGreen => "bright green",
        Color::BrightYellow => "bright yellow",
        Color::BrightBlue => "bright blue",
        Color::BrightMagenta => "bright magenta",
    }
}

/// The sequence that turns every colour and weight off.
pub open spec fn reset_sequence() -> Seq<char> {
    "\x1b[0m"@
}

/// A text between a sequence that turns a style on and the one that turns
/// it off.
pub open spec fn set_between(lead: Seq<char>, text: Seq<char>) -> Seq<char> {
    lead + text + reset_sequence()
}

/// Whether `out` is a text as a terminal gets it: the text as it is, or
/// the text between a sequence that turns a style on and the one that
/// turns it off.
pub open spec fn is_painted(out: Seq<char>, text: Seq<char>) -> bool {
    out == text || exists|lead: Seq<char>| out == #[trigger] set_between(lead, text)
}

/// Sets a text with the `colored` crate: `Colorize::color` for a colour
/// by its name, `Colorize::bold` and `Colorize::dimmed`, and writes it with
/// the `to_string` of `ColoredString`. Whether the crate writes escape
/// sequences depends on the terminal and the environment. What it writes
/// either way: a text without colour and weight as it is; any other text as
/// it is or, where it holds no reset sequence, between the sequence of its
/// style and the reset sequence.
#[verifier::external_body]
fn paint(text: &str, color: Option<&str>, bold: bool, dimmed: bool) -> (out: String)
    requires
        color matches Some(name) ==> exists|c: Color| name@ == color_name(c),
    ensures
        color is None && !bold && !dimmed ==> out@ == text@,
        !contains_text(text@, reset_sequence()) ==> is_painted(out@, text@),
{
    let mut styled = match color {
        Some(name) => text.color(name),
        None => text.normal(),
    };
    if bold {
        styled = styled.bold();
    }
    if dimmed {
        styled = styled.dimmed();
    }
    styled.to_string()
}

/// A piece as it is written to a terminal that may show colours: a piece
/// in the plain style is its text, and so is any piece where the terminal
/// shows no colours; a piece in another style is its text between the
/// sequence that turns the style on and the one that turns it off.
fn paint_part(part: &LinePart) -> (out: String)
    ensures
        part.style == plain() ==> out@ == part.text@,
        !contains_text(part.text@, reset_sequence()) ==> is_painted(out@, part.text@),
{
    match part.style.color {
        Some(color) => {
            let name = name_of(color);
            paint(part.text.as_str(), Some(name), part.style.bold, part.style.dimmed)
        },
        None => paint(part.text.as_str(), None, part.style.bold, part.style.dimmed),
    }
}

/// Whether `out` is a piece as a terminal gets it: a piece in the plain
/// style is its text, and a piece whose text holds no reset sequence is
/// its text, or its text between a sequence that turns a style on and the
/// one that turns it off.
pub open spec fn is_painted_part(out: Seq<char>, part: LinePartModel) -> bool {
    &&& part.style == plain() ==> out == part.text
    &&& !contains_text(part.text, reset_sequence()) ==> is_painted(out, part.text)
}

/// Whether the texts are pieces as a terminal gets them, one for each of
/// the pieces.
pub open spec fn are_painted(texts: Seq<Seq<char>>, parts: Seq<LinePartModel>) -> bool {
    &&& texts.len() == parts.len()
    &&& forall|i: int| 0 <= i < parts.len() ==> is_painted_part(#[trigger] texts[i], parts[i])
}

/// The first `count` texts, one after the other.
pub open spec fn joined(texts: Seq<Seq<char>>, count: nat) -> Seq<char>
    decreases count,
{
    if count == 0 || count > texts.len() {
        Seq::empty()
    } else {
        joined(texts, (count - 1) as nat) + texts[count - 1]
    }
}

/// Whether `out` is a line of the pieces as a terminal gets it: the
/// pieces one after the other, each as the terminal gets it.
pub open spec fn is_painted_line(out: Seq<char>, parts: Seq<LinePartModel>) -> bool {
    exists|texts: Seq<Seq<char>>| #[trigger]
        are_painted(texts, parts) && out == joined(texts, texts.len())
}

/// Whether `out` is a line of the pieces: without colours the texts of the
/// pieces, with colours the pieces as a terminal gets them.
pub open spec fn is_line_of(out: Seq<char>, parts: Seq<LinePartModel>, use_colors: bool) -> bool {
    if use_colors {
        is_painted_line(out, parts)
    } else {
        out == plain_text(parts, parts.len())
    }
}

proof fn lemma_joined_push(texts: Seq<Seq<char>>, text: Seq<char>)
    ensures
        joined(texts.push(text), texts.len() + 1) == joined(texts, texts.len()) + text,
{
    lemma_joined_prefix(texts, text, texts.len());
}

proof fn lemma_joined_prefix(texts: Seq<Seq<char>>, text: Seq<char>, count: nat)
    requires
        count <= texts.len(),
    ensures
        joined(texts.push(text), count) == joined(texts, count),
    decreases count,
{
    if count > 0 {
        lemma_joined_prefix(texts, text, (count - 1) as nat);
    }
}

/// Writes the pieces of a line one after the other. Without colours the
/// line is the texts of the pieces; with colours each piece is set by its
/// style, as the `colored` crate sets it for the terminal at hand.
pub fn render_parts(parts: &Vec<LinePart>, use_colors: bool) -> (out: String)
    ensures
        is_line_of(out@, parts.deep_view(), use_colors),
        !use_colors ==> out@ == plain_text(parts.deep_view(), parts@.len() as nat),
{
    let ghost model = parts.deep_view();
    let ghost mut texts: Seq<Seq<char>> = Seq::empty();
    let mut out = String::new();
    let mut i: usize = 0;
    while i < parts.len()
        invariant
            i <= parts@.len(),
            model == parts.deep_view(),
            model.len() == parts@.len(),
            !use_colors ==> out@ == plain_text(model, i as nat),
            texts.len() == i,
            forall|j: int| 0 <= j < i ==> is_painted_part(#[trigger] texts[j], model[j]),
            use_colors ==> out@ == joined(texts, i as nat),
        decreases parts@.len() - i,
    {
        proof {
            assert(model[i as int] == parts@[i as int].deep_view());
        }
        let ghost before = texts;
        if use_colors {
            let painted = paint_part(&parts[i]);
            out.append(painted.as_str());
            proof {
                texts = texts.push(painted@);
            }
        } else {
            out.append(parts[i].text.as_str());
            proof {
                texts = texts.push(model[i as int].text);
            }
        }
        proof {
            if use_colors {
                lemma_joined_push(before, texts[i as int]);
            }
            assert forall|j: int| 0 <= j < i + 1 implies is_painted_part(
                #[trigger] texts[j],
                model[j],
            ) by {
                if j < i {
                    assert(texts[j] == before[j]);
                }
            }
        }
        i += 1;
    }
    proof {
        if use_colors {
            assert(are_painted(texts, model));
        }
    }
    out
}

} // verus!
