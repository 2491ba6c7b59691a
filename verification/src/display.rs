//! What a listing knows of a file, and the line of a file in each form of
//! a listing.

use crate::config::{Config, OutputFormat};
use crate::git::{file_status, status_color, status_symbol, GitInfo, GitStatus};
use crate::json_build::{field_models, json_object, json_object_text, JsonField, JsonFieldModel};
use crate::paths::{extension_of, path_extension};
use crate::stats::{format_size_decimal, human_size};
use crate::style::{
    bold, colored, dimmed, is_line_of, plain, plain_text, render_parts, Color, LinePart,
    LinePartModel, Style,
};
use crate::textfmt::{chars_of, decimal, push_decimal, same_text};
use crate::utils::{format_permissions, md5_hex, calculate_md5, permissions_text};
use vstd::prelude::*;
use vstd::string::*;

verus! {

/// The time of the last change of a file: seconds and nanoseconds since
/// 1970, and the time as the listing shows it.
#[derive(Debug, Clone, PartialEq, Eq)]
pub struct ModifiedTime {
    pub seconds: i64,
    pub nanos: u32,
    pub text: String,
}

/// What a listing knows of a file.
#[derive(Debug, Clone, PartialEq, Eq)]
pub struct FileInfo {
    pub path: String,
    /// The path in its canonical form, or the path itself where it has none.
    pub absolute_path: String,
    pub name: String,
    pub size: u64,
    pub is_dir: bool,
    pub is_executable: bool,
    pub is_symlink: bool,
    /// Where a symbolic link points to, as far as it can be read.
    pub link_target: Option<String>,
    pub modified_time: Option<ModifiedTime>,
    pub permissions: Option<u32>,
    pub checksum: Option<String>,
    pub file_count: Option<usize>,
    pub dir_count: Option<usize>,
}

/// The view of an optional text.
pub open spec fn text_view(text: Option<String>) -> Option<Seq<char>> {
    match text {
        Some(t) => Some(t@),
        None => None,
    }
}

/// The time of the last change as a listing shows it, or nothing.
pub open spec fn modified_text(info: FileInfo) -> Seq<char> {
    match info.modified_time {
        Some(time) => time.text@,
        None => Seq::empty(),
    }
}

/// The permissions as a listing shows them, or nothing.
pub open spec fn permissions_or_nothing(info: FileInfo) -> Seq<char> {
    match info.permissions {
        Some(mode) => permissions_text(mode),
        None => Seq::empty(),
    }
}

/// The words `true` and `false`.
pub open spec fn bool_text(b: bool) -> Seq<char> {
    if b {
        "true"@
    } else {
        "false"@
    }
}

/// The line of a file in a listing of comma-separated values.
pub open spec fn csv_line(info: FileInfo) -> Seq<char> {
    info.name@ + seq![','] + info.path@ + seq![','] + decimal(info.size as nat) + seq![',']
        + bool_text(info.is_dir) + seq![','] + modified_text(info) + seq![',']
        + permissions_or_nothing(info)
}

/// The line of a file in a Markdown table.
pub open spec fn markdown_line(info: FileInfo) -> Seq<char> {
    "| "@ + (if info.is_dir {
        "--"@
    } else {
        "xx"@
    }) + seq![' '] + info.name@ + " | "@ + (if info.is_dir {
        "-"@
    } else {
        human_size(info.size)
    }) + " | "@ + modified_text(info) + " |"@
}

/// The line of a file in an XML listing.
pub open spec fn xml_line(info: FileInfo) -> Seq<char> {
    "<file name=\""@ + info.name@ + "\" path=\""@ + info.path@ + "\" size=\""@ + decimal(
        info.size as nat,
    ) + "\" is_dir=\""@ + bool_text(info.is_dir) + "\" modified=\""@ + modified_text(info)
        + "\" />"@
}

/// A number, or null where there is none.
pub open spec fn count_field(count: Option<usize>) -> JsonFieldModel {
    match count {
        Some(n) => JsonFieldModel::Number(n as u64),
        None => JsonFieldModel::Null,
    }
}

/// A text, or null where there is none.
pub open spec fn text_field(text: Option<Seq<char>>) -> JsonFieldModel {
    match text {
        Some(t) => JsonFieldModel::Text(t),
        None => JsonFieldModel::Null,
    }
}

/// The fields of a file in a JSON listing.
pub open spec fn json_fields(info: FileInfo) -> Seq<(Seq<char>, JsonFieldModel)> {
    seq![
        ("name"@, JsonFieldModel::Text(info.name@)),
        ("path"@, JsonFieldModel::Text(info.path@)),
        ("size"@, JsonFieldModel::Number(info.size)),
        ("is_dir"@, JsonFieldModel::Bool(info.is_dir)),
        ("is_executable"@, JsonFieldModel::Bool(info.is_executable)),
        ("is_symlink"@, JsonFieldModel::Bool(info.is_symlink)),
        (
            "modified_time"@,
            text_field(
                match info.modified_time {
                    Some(time) => Some(time.text@),
                    None => None,
                },
            ),
        ),
        (
            "permissions"@,
            text_field(
                match info.permissions {
                    Some(mode) => Some(permissions_text(mode)),
                    None => None,
                },
            ),
        ),
        ("checksum"@, text_field(text_view(info.checksum))),
        ("file_count"@, count_field(info.file_count)),
        ("dir_count"@, count_field(info.dir_count)),
    ]
}

/// The line of a file in a JSON listing.
pub open spec fn json_line(info: FileInfo) -> Seq<char> {
    json_object_text(json_fields(info))
}

/// The style of the name of a file by its extension.
pub open spec fn extension_style(ext: Option<Seq<char>>) -> Style {
    match ext {
        Some(e) => if e == "rs"@ {
            colored(Color::Red)
        } else if e == "py"@ {
            colored(Color::Yellow)
        } else if e == "js"@ || e == "ts"@ {
            colored(Color::BrightYellow)
        } else if e == "html"@ || e == "css"@ {
            colored(Color::Magenta)
        } else if e == "md"@ {
            colored(Color::BrightBlue)
        } else if e == "json"@ || e == "yaml"@ || e == "yml"@ || e == "toml"@ {
            colored(Color::BrightGreen)
        } else if e == "jpg"@ || e == "png"@ || e == "gif"@ || e == "svg"@ {
            colored(Color::BrightMagenta)
        } else if e == "exe"@ || e == "bin"@ {
            bold(Color::Green)
        } else if e == "zip"@ || e == "tar"@ || e == "gz"@ || e == "7z"@ {
            bold(Color::Red)
        } else {
            plain()
        },
        None => plain(),
    }
}

/// The style of the name of a file: a directory in blue, an executable in
/// bold green, a symbolic link in cyan, any other file by its extension.
pub open spec fn name_style(info: FileInfo) -> Style {
    if info.is_dir {
        colored(Color::Blue)
    } else if info.is_executable {
        bold(Color::Green)
    } else if info.is_symlink {
        colored(Color::Cyan)
    } else {
        extension_style(path_extension(info.path@))
    }
}

/// The first eight characters of a checksum.
pub open spec fn short_checksum(checksum: Seq<char>) -> Seq<char> {
    if checksum.len() <= 8 {
        checksum
    } else {
        checksum.take(8)
    }
}

/// A piece of a line where a condition holds, and no piece where not.
pub open spec fn part_if(condition: bool, text: Seq<char>, style: Style) -> Seq<LinePartModel> {
    if condition {
        seq![LinePartModel { text, style }]
    } else {
        Seq::empty()
    }
}

/// The piece for the state in version control.
pub open spec fn status_part(config: Config, status: Option<GitStatus>) -> Seq<LinePartModel> {
    match status {
        Some(s) => part_if(config.git_status, status_symbol(s), colored(status_color(s))),
        None => Seq::empty(),
    }
}

/// The piece for the name.
pub open spec fn name_part(info: FileInfo) -> Seq<LinePartModel> {
    seq![LinePartModel { text: info.name@, style: name_style(info) }]
}

/// The piece for the numbers of files and directories in a directory.
pub open spec fn count_part(config: Config, info: FileInfo) -> Seq<LinePartModel> {
    match (info.file_count, info.dir_count) {
        (Some(files), Some(dirs)) => part_if(
            config.show_count && info.is_dir,
            "("@ + decimal(files as nat) + " files, "@ + decimal(dirs as nat) + " dirs)"@,
            dimmed(),
        ),
        _ => Seq::empty(),
    }
}

/// The piece for the size of a file.
pub open spec fn size_part(config: Config, info: FileInfo) -> Seq<LinePartModel> {
    part_if(config.show_size && !info.is_dir, "["@ + human_size(info.size) + "]"@, dimmed())
}

/// The piece for the permissions.
pub open spec fn permission_part(config: Config, info: FileInfo) -> Seq<LinePartModel> {
    match info.permissions {
        Some(mode) => part_if(
            config.show_permissions,
            "("@ + permissions_text(mode) + ")"@,
            colored(Color::Cyan),
        ),
        None => Seq::empty(),
    }
}

/// The piece for the time of the last change.
pub open spec fn time_part(config: Config, info: FileInfo) -> Seq<LinePartModel> {
    match info.modified_time {
        Some(time) => part_if(config.show_time, "["@ + time.text@ + "]"@, dimmed()),
        None => Seq::empty(),
    }
}

/// The piece for the checksum of a file.
pub open spec fn checksum_part(config: Config, info: FileInfo) -> Seq<LinePartModel> {
    match info.checksum {
        Some(checksum) => part_if(
            config.show_checksum && !info.is_dir,
            "<"@ + short_checksum(checksum@) + ">"@,
            colored(Color::Magenta),
        ),
        None => Seq::empty(),
    }
}

/// The piece for the target of a symbolic link.
pub open spec fn link_part(info: FileInfo) -> Seq<LinePartModel> {
    match info.link_target {
        Some(target) => part_if(info.is_symlink, "-> "@ + target@, colored(Color::Cyan)),
        None => Seq::empty(),
    }
}

/// The pieces of the line of a file in a tree: the state in version
/// control, the name, and what the options ask for of counts, size,
/// permissions, time, checksum and link target.
pub open spec fn tree_line_parts(
    config: Config,
    status: Option<GitStatus>,
    info: FileInfo,
) -> Seq<LinePartModel> {
    status_part(config, status) + name_part(info) + count_part(config, info) + size_part(
        config,
        info,
    ) + permission_part(config, info) + time_part(config, info) + checksum_part(config, info)
        + link_part(info)
}

/// The line of a file in a tree, without colours.
pub open spec fn tree_line_text(config: Config, status: Option<GitStatus>, info: FileInfo) -> Seq<
    char,
> {
    plain_text(
        tree_line_parts(config, status, info),
        tree_line_parts(config, status, info).len(),
    )
}

/// Whether the lines of a display are the same on every terminal: all but
/// the lines of a tree in colours are.
pub open spec fn is_plain(config: Config) -> bool {
    !(config.output_format == OutputFormat::Tree && config.use_colors)
}

/// The line of a file in the form of listing that the options name, as
/// far as it is the same on every terminal.
pub open spec fn file_info_line(
    config: Config,
    status: Option<GitStatus>,
    info: FileInfo,
) -> Seq<char> {
    match config.output_format {
        OutputFormat::Tree => tree_line_text(config, status, info),
        OutputFormat::Json => json_line(info),
        OutputFormat::Csv => csv_line(info),
        OutputFormat::Markdown => markdown_line(info),
        OutputFormat::Xml => xml_line(info),
    }
}

/// Whether `out` is the line of a file in the form of listing that the
/// options name: in a tree the pieces of the line, in colours as a terminal
/// gets them; in any other form the line of that form.
pub open spec fn is_file_info_line(
    out: Seq<char>,
    config: Config,
    status: Option<GitStatus>,
    info: FileInfo,
) -> bool {
    match config.output_format {
        OutputFormat::Tree => is_line_of(
            out,
            tree_line_parts(config, status, info),
            config.use_colors,
        ),
        _ => out == file_info_line(config, status, info),
    }
}

/// The path of the root of a listing: the canonical path where full paths
/// are asked for.
pub open spec fn shown_path(config: Config, path: Seq<char>, canonical: Seq<char>) -> Seq<char> {
    if config.full_path {
        canonical
    } else {
        path
    }
}

/// What shows the files of a listing: the options, and the states of the
/// files in version control where they are known.
#[derive(Debug, Clone, PartialEq, Eq)]
pub struct TreeDisplay {
    pub config: Config,
    pub git_info: Option<GitInfo>,
}

fn make_part(text: String, style: Style) -> (part: LinePart)
    ensures
        part.deep_view() == (LinePartModel { text: text@, style }),
{
    LinePart { text, style }
}

fn style_of_extension(ext: &Option<String>) -> (style: Style)
    ensures
        style == extension_style(text_view(*ext)),
{
    match ext {
        Some(e) => {
            let e = e.as_str();
            if same_text(e, "rs") {
                Style { color: Some(Color::Red), bold: false, dimmed: false }
            } else if same_text(e, "py") {
                Style { color: Some(Color::Yellow), bold: false, dimmed: false }
            } else if same_text(e, "js") || same_text(e, "ts") {
                Style { color: Some(Color::BrightYellow), bold: false, dimmed: false }
            } else if same_text(e, "html") || same_text(e, "css") {
                Style { color: Some(Color::Magenta), bold: false, dimmed: false }
            } else if same_text(e, "md") {
                Style { color: Some(Color::BrightBlue), bold: false, dimmed: false }
            } else if same_text(e, "json") || same_text(e, "yaml") || same_text(e, "yml")
                || same_text(e, "toml") {
                Style { color: Some(Color::BrightGreen), bold: false, dimmed: false }
            } else if same_text(e, "jpg") || same_text(e, "png") || same_text(e, "gif")
                || same_text(e, "svg") {
                Style { color: Some(Color::BrightMagenta), bold: false, dimmed: false }
            } else if same_text(e, "exe") || same_text(e, "bin") {
                Style { color: Some(Color::Green), bold: true, dimmed: false }
            } else if same_text(e, "zip") || same_text(e, "tar") || same_text(e, "gz")
                || same_text(e, "7z") {
                Style { color: Some(Color::Red), bold: true, dimmed: false }
            } else {
                Style { color: None, bold: false, dimmed: false }
            }
        },
        None => Style { color: None, bold: false, dimmed: false },
    }
}

impl FileInfo {
    /// The style of the name of the file.
    pub fn name_style(&self) -> (style: Style)
        ensures
            style == name_style(*self),
    {
        if self.is_dir {
            Style { color: Some(Color::Blue), bold: false, dimmed: false }
        } else if self.is_executable {
            Style { color: Some(Color::Green), bold: true, dimmed: false }
        } else if self.is_symlink {
            Style { color: Some(Color::Cyan), bold: false, dimmed: false }
        } else {
            let ext = extension_of(self.path.as_str());
            style_of_extension(&ext)
        }
    }

    /// Sets the checksum of a file that has none yet to the MD5 digest of
    /// its content. A directory gets none.
    pub fn calculate_checksum(&mut self, content: &[u8])
        ensures
            old(self).checksum is Some || old(self).is_dir ==> final(self).checksum == old(self).checksum,
            old(self).checksum is None && !old(self).is_dir ==> final(self).checksum is Some
                && final(self).checksum->0@ == md5_hex(content@),
            final(self).path == old(self).path,
            final(self).absolute_path == old(self).absolute_path,
            final(self).name == old(self).name,
            final(self).size == old(self).size,
            final(self).is_dir == old(self).is_dir,
            final(self).is_executable == old(self).is_executable,
            final(self).is_symlink == old(self).is_symlink,
            final(self).link_target == old(self).link_target,
            final(self).modified_time == old(self).modified_time,
            final(self).permissions == old(self).permissions,
            final(self).file_count == old(self).file_count,
            final(self).dir_count == old(self).dir_count,
    {
        if self.checksum.is_none() && !self.is_dir {
            self.checksum = Some(calculate_md5(content));
        }
    }
}

fn push_part_if(parts: &mut Vec<LinePart>, condition: bool, text: String, style: Style)
    ensures
        final(parts).deep_view() == old(parts).deep_view() + part_if(condition, text@, style),
{
    if condition {
        let ghost before = parts.deep_view();
        parts.push(LinePart { text, style });
        proof {
            assert(parts.deep_view() =~= before + part_if(condition, text@, style));
        }
    } else {
        proof {
            assert(parts.deep_view() =~= old(parts).deep_view() + part_if(condition, text@, style));
        }
    }
}

fn first_chars(text: &str, count: usize) -> (head: String)
    ensures
        head@ == if text@.len() <= count {
            text@
        } else {
            text@.take(count as int)
        },
{
    let chars = chars_of(text);
    if chars.len() <= count {
        return text.to_owned();
    }
    let mut head = String::new();
    let mut i: usize = 0;
    while i < count
        invariant
            i <= count < chars@.len(),
            chars@ == text@,
            head@ == text@.take(i as int),
        decreases count - i,
    {
        head.push(chars[i]);
        proof {
            assert(text@.take(i + 1) =~= text@.take(i as int).push(text@[i as int]));
        }
        i += 1;
    }
    head
}

fn push_bool(out: &mut String, b: bool)
    ensures
        final(out)@ == old(out)@ + bool_text(b),
{
    if b {
        out.append("true");
    } else {
        out.append("false");
    }
}

fn push_modified(out: &mut String, info: &FileInfo)
    ensures
        final(out)@ == old(out)@ + modified_text(*info),
{
    match &info.modified_time {
        Some(time) => out.append(time.text.as_str()),
        None => {},
    }
}

impl TreeDisplay {
    /// A display by options, without states of version control.
    pub fn new(config: Config) -> (display: Self)
        ensures
            display.config == config,
            display.git_info is None,
    {
        TreeDisplay { config, git_info: None }
    }

    /// The display with the states of version control.
    pub fn with_git_info(self, git_info: GitInfo) -> (display: Self)
        ensures
            display.config == self.config,
            display.git_info == Some(git_info),
    {
        TreeDisplay { config: self.config, git_info: Some(git_info) }
    }

    /// The path of the root of a listing as it is shown: the canonical
    /// path where full paths are asked for, in bold blue where colours are.
    pub fn format_path(&self, path: &str, canonical: &str) -> (out: String)
        ensures
            !self.config.use_colors ==> out@ == shown_path(self.config, path@, canonical@),
            is_line_of(
                out@,
                seq![
                    (LinePartModel {
                        text: shown_path(self.config, path@, canonical@),
                        style: bold(Color::Blue),
                    }),
                ],
                self.config.use_colors,
            ),
    {
        let shown = if self.config.full_path {
            canonical
        } else {
            path
        };
        let mut parts: Vec<LinePart> = Vec::new();
        parts.push(
            make_part(
                shown.to_owned(),
                Style { color: Some(Color::Blue), bold: true, dimmed: false },
            ),
        );
        proof {
            let model = parts.deep_view();
            assert(model[0].text == shown@);
            assert(plain_text(model, 1) =~= shown@) by {
                assert(plain_text(model, 0) =~= Seq::<char>::empty());
            }
            assert(model =~= seq![
                (LinePartModel {
                    text: shown_path(self.config, path@, canonical@),
                    style: bold(Color::Blue),
                }),
            ]);
        }
        render_parts(&parts, self.config.use_colors)
    }

    /// The state of a file in version control, where states are known.
    pub open spec fn status_of(&self, info: &FileInfo) -> Option<GitStatus> {
        match self.git_info {
            Some(git) => Some(
                file_status(text_view(git.workdir), git.status_cache@, info.absolute_path@),
            ),
            None => None,
        }
    }

    fn push_status_part(&self, parts: &mut Vec<LinePart>, info: &FileInfo)
        ensures
            final(parts).deep_view() == old(parts).deep_view() + status_part(
                self.config,
                self.status_of(info),
            ),
    {
        match &self.git_info {
            Some(git) => {
                let status = git.get_status(info.absolute_path.as_str());
                push_part_if(
                    parts,
                    self.config.git_status,
                    status.symbol().to_owned(),
                    Style { color: Some(status.color()), bold: false, dimmed: false },
                );
            },
            None => {
                proof {
                    assert(parts.deep_view() =~= old(parts).deep_view() + Seq::empty());
                }
            },
        }
    }

    fn push_count_part(&self, parts: &mut Vec<LinePart>, info: &FileInfo)
        ensures
            final(parts).deep_view() == old(parts).deep_view() + count_part(self.config, *info),
    {
        match (info.file_count, info.dir_count) {
            (Some(files), Some(dirs)) => {
                let mut text = String::new();
                text.append("(");
                push_decimal(&mut text, files as u64);
                text.append(" files, ");
                push_decimal(&mut text, dirs as u64);
                text.append(" dirs)");
                push_part_if(
                    parts,
                    self.config.show_count && info.is_dir,
                    text,
                    Style { color: None, bold: false, dimmed: true },
                );
            },
            _ => {
                proof {
                    assert(parts.deep_view() =~= old(parts).deep_view() + Seq::empty());
                }
            },
        }
    }

    fn push_size_part(&self, parts: &mut Vec<LinePart>, info: &FileInfo)
        ensures
            final(parts).deep_view() == old(parts).deep_view() + size_part(self.config, *info),
    {
        let mut text = String::new();
        text.append("[");
        let words = format_size_decimal(info.size);
        text.append(words.as_str());
        text.append("]");
        push_part_if(
            parts,
            self.config.show_size && !info.is_dir,
            text,
            Style { color: None, bold: false, dimmed: true },
        );
    }

    fn push_permission_part(&self, parts: &mut Vec<LinePart>, info: &FileInfo)
        ensures
            final(parts).deep_view() == old(parts).deep_view() + permission_part(
                self.config,
                *info,
            ),
    {
        match info.permissions {
            Some(mode) => {
                let mut text = String::new();
                text.append("(");
                let perms = format_permissions(mode);
                text.append(perms.as_str());
                text.append(")");
                push_part_if(
                    parts,
                    self.config.show_permissions,
                    text,
                    Style { color: Some(Color::Cyan), bold: false, dimmed: false },
                );
            },
            None => {
                proof {
                    assert(parts.deep_view() =~= old(parts).deep_view() + Seq::empty());
                }
            },
        }
    }

    fn push_time_part(&self, parts: &mut Vec<LinePart>, info: &FileInfo)
        ensures
            final(parts).deep_view() == old(parts).deep_view() + time_part(self.config, *info),
    {
        match &info.modified_time {
            Some(time) => {
                let mut text = String::new();
                text.append("[");
                text.append(time.text.as_str());
                text.append("]");
                push_part_if(
                    parts,
                    self.config.show_time,
                    text,
                    Style { color: None, bold: false, dimmed: true },
                );
            },
            None => {
                proof {
                    assert(parts.deep_view() =~= old(parts).deep_view() + Seq::empty());
                }
            },
        }
    }

    fn push_checksum_part(&self, parts: &mut Vec<LinePart>, info: &FileInfo)
        ensures
            final(parts).deep_view() == old(parts).deep_view() + checksum_part(
                self.config,
                *info,
            ),
    {
        match &info.checksum {
            Some(checksum) => {
                let mut text = String::new();
                text.append("<");
                let short = first_chars(checksum.as_str(), 8);
                text.append(short.as_str());
                text.append(">");
                push_part_if(
                    parts,
                    self.config.show_checksum && !info.is_dir,
                    text,
                    Style { color: Some(Color::Magenta), bold: false, dimmed: false },
                );
            },
            None => {
                proof {
                    assert(parts.deep_view() =~= old(parts).deep_view() + Seq::empty());
                }
            },
        }
    }

    fn push_link_part(&self, parts: &mut Vec<LinePart>, info: &FileInfo)
        ensures
            final(parts).deep_view() == old(parts).deep_view() + link_part(*info),
    {
        match &info.link_target {
            Some(target) => {
                let mut text = String::new();
                text.append("-> ");
                text.append(target.as_str());
                push_part_if(
                    parts,
                    info.is_symlink,
                    text,
                    Style { color: Some(Color::Cyan), bold: false, dimmed: false },
                );
            },
            None => {
                proof {
                    assert(parts.deep_view() =~= old(parts).deep_view() + Seq::empty());
                }
            },
        }
    }

    /// The pieces of the line of a file in a tree.
    pub fn tree_line(&self, info: &FileInfo) -> (parts: Vec<LinePart>)
        ensures
            parts.deep_view() == tree_line_parts(self.config, self.status_of(info), *info),
    {
        let mut parts: Vec<LinePart> = Vec::new();
        proof {
            assert(parts.deep_view() =~= Seq::empty());
        }
        self.push_status_part(&mut parts, info);
        push_part_if(&mut parts, true, info.name.clone(), info.name_style());
        self.push_count_part(&mut parts, info);
        self.push_size_part(&mut parts, info);
        self.push_permission_part(&mut parts, info);
        self.push_time_part(&mut parts, info);
        self.push_checksum_part(&mut parts, info);
        self.push_link_part(&mut parts, info);
        proof {
            assert(parts.deep_view() =~= tree_line_parts(
                self.config,
                self.status_of(info),
                *info,
            ));
        }
        parts
    }

    /// The line of a file in a tree. Without colours it is the texts of
    /// its pieces; with colours each piece is set for the terminal.
    pub fn format_tree_line(&self, info: &FileInfo) -> (out: String)
        ensures
            !self.config.use_colors ==> out@ == tree_line_text(
                self.config,
                self.status_of(info),
                *info,
            ),
            is_line_of(
                out@,
                tree_line_parts(self.config, self.status_of(info), *info),
                self.config.use_colors,
            ),
    {
        let parts = self.tree_line(info);
        render_parts(&parts, self.config.use_colors)
    }

    /// The line of a file in the form of listing that the options name.
    pub fn format_file_info(&self, info: &FileInfo) -> (out: String)
        ensures
            is_plain(self.config) ==> out@ == file_info_line(
                self.config,
                self.status_of(info),
                *info,
            ),
            is_file_info_line(out@, self.config, self.status_of(info), *info),
    {
        match self.config.output_format {
            OutputFormat::Tree => self.format_tree_line(info),
            OutputFormat::Json => self.format_json_line(info),
            OutputFormat::Csv => self.format_csv_line(info),
            OutputFormat::Markdown => self.format_markdown_line(info),
            OutputFormat::Xml => self.format_xml_line(info),
        }
    }

    /// The line of a file in a listing of comma-separated values.
    pub fn format_csv_line(&self, info: &FileInfo) -> (out: String)
        ensures
            out@ == csv_line(*info),
    {
        let mut out = String::new();
        out.append(info.name.as_str());
        out.push(',');
        out.append(info.path.as_str());
        out.push(',');
        push_decimal(&mut out, info.size);
        out.push(',');
        push_bool(&mut out, info.is_dir);
        out.push(',');
        push_modified(&mut out, info);
        out.push(',');
        match info.permissions {
            Some(mode) => {
                let perms = format_permissions(mode);
                out.append(perms.as_str());
            },
            None => {},
        }
        proof {
            assert(out@ =~= csv_line(*info));
        }
        out
    }

    /// The line of a file in a Markdown table.
    pub fn format_markdown_line(&self, info: &FileInfo) -> (out: String)
        ensures
            out@ == markdown_line(*info),
    {
        let mut out = String::new();
        out.append("| ");
        if info.is_dir {
            out.append("--");
        } else {
            out.append("xx");
        }
        out.push(' ');
        out.append(info.name.as_str());
        out.append(" | ");
        if info.is_dir {
            out.append("-");
        } else {
            let size = format_size_decimal(info.size);
            out.append(size.as_str());
        }
        out.append(" | ");
        push_modified(&mut out, info);
        out.append(" |");
        proof {
            assert(out@ =~= markdown_line(*info));
        }
        out
    }

    /// The line of a file in an XML listing.
    pub fn format_xml_line(&self, info: &FileInfo) -> (out: String)
        ensures
            out@ == xml_line(*info),
    {
        let mut out = String::new();
        out.append("<file name=\"");
        out.append(info.name.as_str());
        out.append("\" path=\"");
        out.append(info.path.as_str());
        out.append("\" size=\"");
        push_decimal(&mut out, info.size);
        out.append("\" is_dir=\"");
        push_bool(&mut out, info.is_dir);
        out.append("\" modified=\"");
        push_modified(&mut out, info);
        out.append("\" />");
        proof {
            assert(out@ =~= xml_line(*info));
        }
        out
    }

    /// The line of a file in a JSON listing: an object with what is known
    /// of the file.
    pub fn format_json_line(&self, info: &FileInfo) -> (out: String)
        ensures
            out@ == json_line(*info),
    {
        let mut fields: Vec<(String, JsonField)> = Vec::new();
        fields.push(("name".to_owned(), JsonField::Text(info.name.clone())));
        fields.push(("path".to_owned(), JsonField::Text(info.path.clone())));
        fields.push(("size".to_owned(), JsonField::Number(info.size)));
        fields.push(("is_dir".to_owned(), JsonField::Bool(info.is_dir)));
        fields.push(("is_executable".to_owned(), JsonField::Bool(info.is_executable)));
        fields.push(("is_symlink".to_owned(), JsonField::Bool(info.is_symlink)));
        fields.push(
            (
                "modified_time".to_owned(),
                match &info.modified_time {
                    Some(time) => JsonField::Text(time.text.clone()),
                    None => JsonField::Null,
                },
            ),
        );
        fields.push(
            (
                "permissions".to_owned(),
                match info.permissions {
                    Some(mode) => JsonField::Text(format_permissions(mode)),
                    None => JsonField::Null,
                },
            ),
        );
        fields.push(
            (
                "checksum".to_owned(),
                match &info.checksum {
                    Some(checksum) => JsonField::Text(checksum.clone()),
                    None => JsonField::Null,
                },
            ),
        );
        fields.push(
            (
                "file_count".to_owned(),
                match info.file_count {
                    Some(n) => JsonField::Number(n as u64),
                    None => JsonField::Null,
                },
            ),
        );
        fields.push(
            (
                "dir_count".to_owned(),
                match info.dir_count {
                    Some(n) => JsonField::Number(n as u64),
                    None => JsonField::Null,
                },
            ),
        );
        proof {
            assert(field_models(fields@) =~= json_fields(*info));
        }
        match json_object(&fields) {
            Some(text) => text,
            None => {
                // no field is raw
                proof {
                    assert(false);
                }
                String::new()
            },
        }
    }
}

} // verus!
