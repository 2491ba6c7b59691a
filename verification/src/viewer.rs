//! The viewer: a configuration, and the choice of the renderer for a file
//! by its format and by the strategy that its size calls for.

pub mod binary;
pub mod content;
pub mod csv_viewer;
pub mod file_size;
pub mod highlight;
pub mod json_stream;
pub mod parquet_viewer;
pub mod structured;
pub mod table;
pub mod text;

pub use crate::format::{detect_format, is_binary_file};
pub use crate::viewer::binary::{detect_binary_file_type, format_hex_dump};
pub use crate::viewer::content::{detect_csv_delimiter, escape_control_chars, truncate_content};
pub use crate::viewer::csv_viewer::parse_csv_content;
pub use crate::viewer::file_size::format_file_size;
pub use crate::viewer::highlight::highlight_syntax;
pub use crate::viewer::structured::{parse_json_content, parse_toml_content, parse_yaml_content};

use crate::error::{outcome_view, ViewError, ViewErrorModel};
use crate::format::{detected_format, ViewerFormat};
use crate::paths::path_extension;
use crate::strategy::{
    select_strategy, strategy_for, ViewStrategy, LARGE_FILE_THRESHOLD, SMALL_FILE_THRESHOLD,
};
use crate::viewer::binary::{
    binary_read_len, binary_view, view_binary_file, DEFAULT_MAX_BYTES,
};
use crate::viewer::csv_viewer::{
    csv_file, csv_memory_mapped, csv_streaming, view_csv_file, view_csv_memory_mapped,
    view_csv_streaming,
};
use crate::viewer::json_stream::{
    json_memory_mapped, json_streaming, view_json_memory_mapped, view_json_streaming,
};
use crate::viewer::parquet_viewer::{
    parquet_file, view_parquet_file, ParquetData, ParquetMetadata,
};
use crate::viewer::structured::{
    json_file, toml_file, toml_reformatted, view_json_file, view_toml_file, view_yaml_file,
    yaml_file, yaml_reformatted,
};
use crate::viewer::text::{
    highlighted_view, limit_or_default, render_highlighted, text_file, text_memory_mapped,
    text_streaming, view_text_file, view_text_memory_mapped, view_text_streaming,
    DEFAULT_PREVIEW_SIZE, MAX_PREVIEW_ITEMS,
};
use vstd::prelude::*;
use vstd::string::*;
use vstd::utf8::{decode_utf8, valid_utf8};

verus! {

/// The strategy that a viewer is set to: one of the three, or `Auto` for
/// the one that the size of the file calls for.
#[derive(Debug, Clone, Copy, PartialEq, Eq, Structural)]
pub enum ViewerStrategy {
    Auto,
    FullLoad,
    Streaming,
    MemoryMapped,
}

/// The options of a view.
#[derive(Debug, Clone, Copy, PartialEq, Eq, Structural)]
pub struct ViewerOptions {
    pub max_lines: Option<usize>,
    pub max_bytes: Option<usize>,
    pub delimiter: char,
    pub strategy: ViewerStrategy,
    pub preview_size: usize,
}

impl Default for ViewerOptions {
    fn default() -> (options: Self)
        ensures
            options.max_lines == Some(100usize),
            options.max_bytes == Some(DEFAULT_MAX_BYTES),
            options.delimiter == ',',
            options.strategy == ViewerStrategy::Auto,
            options.preview_size == DEFAULT_PREVIEW_SIZE,
    {
        ViewerOptions {
            max_lines: Some(100),
            max_bytes: Some(DEFAULT_MAX_BYTES),
            delimiter: ',',
            strategy: ViewerStrategy::Auto,
            preview_size: DEFAULT_PREVIEW_SIZE,
        }
    }
}

/// A viewer: the format and the strategy it is set to, the limits on lines
/// and bytes, the delimiter of tables, and the size of the window on a
/// mapped file.
#[derive(Debug, Clone, Copy, PartialEq, Eq, Structural)]
pub struct FileViewer {
    pub format: ViewerFormat,
    pub strategy: ViewerStrategy,
    pub max_lines: Option<usize>,
    pub max_bytes: Option<usize>,
    pub delimiter: char,
    pub preview_size: usize,
}

/// What a view needs of a file besides its bytes: readers that work on
/// the file itself are asked by the caller.
#[derive(Debug, Clone, Copy, PartialEq, Eq, Structural)]
pub enum Wanted {
    /// Nothing but the bytes.
    Bytes,
    /// The lines of the file as a highlighter sets them, where it can.
    Highlighting,
    /// The footer and the rows of a columnar file.
    Columnar,
}

/// What was read of a file besides its bytes.
#[derive(Debug, PartialEq, Eq)]
pub enum Reading {
    /// Nothing but the bytes.
    Bytes,
    /// The name of the file, the name of its syntax, and its lines as a
    /// highlighter has set them for the terminal, each with its line
    /// ending; under a limit one line more than the limit, if the file
    /// has one.
    Highlighted(String, String, Vec<String>),
    /// The footer of a columnar file, and its rows or the reason why they
    /// cannot be read.
    Columnar(ParquetMetadata, Result<ParquetData, String>),
    /// The reason why the footer of a columnar file cannot be read.
    Unreadable(String),
}

/// The message for a columnar file of which nothing but bytes was read.
pub open spec fn columnar_message() -> Seq<char> {
    "a Parquet file is viewed from its metadata and rows, not from its bytes"@
}

/// What a view in a format by a strategy needs of a file besides its
/// bytes.
pub open spec fn wanted_for(format: ViewerFormat, strategy: ViewStrategy) -> Wanted {
    match format {
        ViewerFormat::Parquet => Wanted::Columnar,
        ViewerFormat::Text | ViewerFormat::Auto => if strategy == ViewStrategy::FullLoad {
            Wanted::Highlighting
        } else {
            Wanted::Bytes
        },
        _ => Wanted::Bytes,
    }
}

/// The view of a columnar file by what was read of it: the footer and the
/// rows; the reader's message as the error where the footer cannot be read.
pub open spec fn columnar_view(path: Seq<char>, reading: Reading, max_rows: Option<usize>) -> Result<
    Seq<char>,
    ViewErrorModel,
> {
    match reading {
        Reading::Columnar(metadata, data) => Ok(parquet_file(path, metadata, data, max_rows)),
        Reading::Unreadable(message) => Err(ViewErrorModel::Parse(message@)),
        _ => Err(ViewErrorModel::Parse(columnar_message())),
    }
}

/// The view of a text file that is loaded whole: its highlighted lines
/// where they were read, and its numbered lines else.
pub open spec fn loaded_text_view(
    path: Seq<char>,
    content: Seq<u8>,
    reading: Reading,
    max_lines: Option<usize>,
) -> Seq<char> {
    match reading {
        Reading::Highlighted(name, syntax, lines) => highlighted_view(
            name@,
            syntax@,
            lines.deep_view(),
            max_lines,
        ),
        _ => text_file(path, content, max_lines),
    }
}

/// The format of a view: the one the viewer is set to, or the detected one.
pub open spec fn resolved_format(format: ViewerFormat, path: Seq<char>, content: Seq<u8>) -> ViewerFormat {
    match format {
        ViewerFormat::Auto => detected_format(path_extension(path), None, Some(content)),
        _ => format,
    }
}

/// The strategy of a view: the one the viewer is set to, or the one that
/// the size of the file calls for.
pub open spec fn resolved_strategy(strategy: ViewerStrategy, size: nat) -> ViewStrategy {
    match strategy {
        ViewerStrategy::Auto => strategy_for(
            size as u64,
            SMALL_FILE_THRESHOLD,
            LARGE_FILE_THRESHOLD,
        ),
        ViewerStrategy::FullLoad => ViewStrategy::FullLoad,
        ViewerStrategy::Streaming => ViewStrategy::Streaming,
        ViewerStrategy::MemoryMapped => ViewStrategy::MemoryMapped,
    }
}

/// The view of a content in a resolved format, by a strategy, with what
/// was read of the file besides. A format that is still `Auto` is viewed as
/// text.
pub open spec fn content_view(
    viewer: FileViewer,
    format: ViewerFormat,
    strategy: ViewStrategy,
    path: Seq<char>,
    content: Seq<u8>,
    reading: Reading,
) -> Result<Seq<char>, ViewErrorModel> {
    let max = limit_or_default(viewer.max_lines);
    let delimiter = viewer.delimiter as u8;
    let window = viewer.preview_size as nat;
    match format {
        ViewerFormat::Text | ViewerFormat::Auto => match strategy {
            ViewStrategy::FullLoad => Ok(
                loaded_text_view(path, content, reading, viewer.max_lines),
            ),
            ViewStrategy::Streaming => Ok(text_streaming(path, content, max)),
            ViewStrategy::MemoryMapped => Ok(text_memory_mapped(path, content, window, max)),
        },
        ViewerFormat::Csv => match strategy {
            ViewStrategy::FullLoad => csv_file(path, content, viewer.max_lines, delimiter),
            ViewStrategy::Streaming => Ok(csv_streaming(path, content, delimiter, max)),
            ViewStrategy::MemoryMapped => Ok(
                csv_memory_mapped(path, content, delimiter, window, max),
            ),
        },
        ViewerFormat::Json => match strategy {
            ViewStrategy::FullLoad => json_file(path, content),
            ViewStrategy::Streaming => Ok(json_streaming(path, content, max)),
            ViewStrategy::MemoryMapped => Ok(json_memory_mapped(path, content, window, max)),
        },
        ViewerFormat::Yaml => yaml_file(path, content),
        ViewerFormat::Toml => toml_file(path, content),
        ViewerFormat::Binary => Ok(
            binary_view(
                path,
                content.take(binary_read_len(viewer.max_bytes, content.len()) as int),
                content.len(),
            ),
        ),
        ViewerFormat::Parquet => columnar_view(path, reading, viewer.max_lines),
    }
}

/// Whether a view by a format and a strategy fails on a file without a
/// byte: a JSON file that is loaded whole must hold a document, and a
/// columnar file a footer that was read.
pub open spec fn needs_content(format: ViewerFormat, strategy: ViewStrategy, reading: Reading) -> bool {
    (format == ViewerFormat::Parquet && !(reading is Columnar)) || (format == ViewerFormat::Json
        && strategy == ViewStrategy::FullLoad)
}

/// Whether a content is a YAML or TOML document that its parser reads and
/// cannot write again: the one case in which the view of such a file fails
/// though the content is text.
pub open spec fn is_unprintable(format: ViewerFormat, content: Seq<u8>) -> bool {
    valid_utf8(content) && match format {
        ViewerFormat::Yaml => yaml_reformatted(decode_utf8(content)) is Unprintable,
        ViewerFormat::Toml => toml_reformatted(decode_utf8(content)) is Unprintable,
        _ => false,
    }
}

/// The view of a file: the view of its content in the resolved format, by
/// the resolved strategy.
pub open spec fn file_view(
    viewer: FileViewer,
    path: Seq<char>,
    content: Seq<u8>,
    reading: Reading,
) -> Result<Seq<char>, ViewErrorModel> {
    content_view(
        viewer,
        resolved_format(viewer.format, path, content),
        resolved_strategy(viewer.strategy, content.len()),
        path,
        content,
        reading,
    )
}

impl FileViewer {
    /// A viewer for a format, with a limit of a hundred lines and of 1024
    /// bytes, the comma as delimiter, the strategy by size, and a window of
    /// 64 KiB.
    pub fn new(format: ViewerFormat) -> (viewer: Self)
        ensures
            viewer == (FileViewer {
                format,
                strategy: ViewerStrategy::Auto,
                max_lines: Some(100usize),
                max_bytes: Some(DEFAULT_MAX_BYTES),
                delimiter: ',',
                preview_size: DEFAULT_PREVIEW_SIZE,
            }),
    {
        FileViewer {
            format,
            strategy: ViewerStrategy::Auto,
            max_lines: Some(100),
            max_bytes: Some(DEFAULT_MAX_BYTES),
            delimiter: ',',
            preview_size: DEFAULT_PREVIEW_SIZE,
        }
    }

    /// The viewer with other limits on lines and bytes.
    pub fn with_limits(self, max_lines: Option<usize>, max_bytes: Option<usize>) -> (viewer: Self)
        ensures
            viewer == (FileViewer { max_lines, max_bytes, ..self }),
    {
        FileViewer { max_lines, max_bytes, ..self }
    }

    /// The viewer with another delimiter.
    pub fn with_delimiter(self, delimiter: char) -> (viewer: Self)
        ensures
            viewer == (FileViewer { delimiter, ..self }),
    {
        FileViewer { delimiter, ..self }
    }

    /// The viewer set to a strategy.
    pub fn with_strategy(self, strategy: ViewerStrategy) -> (viewer: Self)
        ensures
            viewer == (FileViewer { strategy, ..self }),
    {
        FileViewer { strategy, ..self }
    }

    /// The viewer with another size of the window on a mapped file.
    pub fn with_preview_size(self, preview_size: usize) -> (viewer: Self)
        ensures
            viewer == (FileViewer { preview_size, ..self }),
    {
        FileViewer { preview_size, ..self }
    }

    /// The format of a view of the file at `path`, of which `sample` holds
    /// the leading bytes, or is `None` where they could not be read. The
    /// result is never `Auto`.
    pub fn resolve_format(&self, path: &str, sample: Option<&[u8]>) -> (format: ViewerFormat)
        ensures
            format == match self.format {
                ViewerFormat::Auto => detected_format(
                    path_extension(path@),
                    None,
                    match sample {
                        Some(bytes) => Some(bytes@),
                        None => None,
                    },
                ),
                _ => self.format,
            },
            format != ViewerFormat::Auto,
    {
        match self.format {
            ViewerFormat::Auto => detect_format(path, None, sample),
            _ => self.format,
        }
    }

    /// The strategy of a view of a file of `size` bytes: the one the viewer
    /// is set to, and the one by size where it is set to none.
    pub fn resolve_strategy(&self, size: u64) -> (strategy: ViewStrategy)
        ensures
            strategy == match self.strategy {
                ViewerStrategy::Auto => strategy_for(
                    size,
                    SMALL_FILE_THRESHOLD,
                    LARGE_FILE_THRESHOLD,
                ),
                ViewerStrategy::FullLoad => ViewStrategy::FullLoad,
                ViewerStrategy::Streaming => ViewStrategy::Streaming,
                ViewerStrategy::MemoryMapped => ViewStrategy::MemoryMapped,
            },
    {
        match self.strategy {
            ViewerStrategy::Auto => select_strategy(size),
            ViewerStrategy::FullLoad => ViewStrategy::FullLoad,
            ViewerStrategy::Streaming => ViewStrategy::Streaming,
            ViewerStrategy::MemoryMapped => ViewStrategy::MemoryMapped,
        }
    }

    /// What a view of the file at `path` with the content `content` needs
    /// of the file besides its bytes.
    pub fn wanted(&self, path: &str, content: &[u8]) -> (wanted: Wanted)
        ensures
            wanted == wanted_for(
                resolved_format(self.format, path@, content@),
                resolved_strategy(self.strategy, content@.len()),
            ),
    {
        let format = self.resolve_format(path, Some(content));
        let strategy = self.resolve_strategy(content.len() as u64);
        match format {
            ViewerFormat::Parquet => Wanted::Columnar,
            ViewerFormat::Text | ViewerFormat::Auto => match strategy {
                ViewStrategy::FullLoad => Wanted::Highlighting,
                _ => Wanted::Bytes,
            },
            _ => Wanted::Bytes,
        }
    }

    /// Views a content in a resolved format, by a strategy, with what was
    /// read of the file besides its bytes. A format that is still `Auto` is
    /// viewed as text. A columnar file is viewed from what its reader made
    /// of it, and the view fails where that was not handed over.
    pub fn view_content(
        &self,
        format: ViewerFormat,
        strategy: ViewStrategy,
        path: &str,
        content: &[u8],
        reading: &Reading,
    ) -> (out: Result<String, ViewError>)
        ensures
            outcome_view(out) == content_view(*self, format, strategy, path@, content@, *reading),
            content@.len() == 0 && !needs_content(format, strategy, *reading) && !is_unprintable(
                format,
                content@,
            ) ==> out is Ok,
    {
        proof {
            if content@.len() == 0 {
                assert(valid_utf8(content@));
            }
        }
        let max: usize = match self.max_lines {
            Some(n) => n,
            None => MAX_PREVIEW_ITEMS,
        };
        let delimiter = self.delimiter as u8;
        match format {
            ViewerFormat::Text | ViewerFormat::Auto => match strategy {
                ViewStrategy::FullLoad => match reading {
                    Reading::Highlighted(name, syntax, lines) => Ok(
                        render_highlighted(name.as_str(), syntax.as_str(), lines, self.max_lines),
                    ),
                    _ => Ok(view_text_file(path, content, self.max_lines)),
                },
                ViewStrategy::Streaming => Ok(view_text_streaming(path, content, max)),
                ViewStrategy::MemoryMapped => Ok(
                    view_text_memory_mapped(path, content, self.preview_size, max),
                ),
            },
            ViewerFormat::Csv => match strategy {
                ViewStrategy::FullLoad => view_csv_file(
                    path,
                    content,
                    self.max_lines,
                    self.delimiter,
                ),
                ViewStrategy::Streaming => Ok(view_csv_streaming(path, content, delimiter, max)),
                ViewStrategy::MemoryMapped => Ok(
                    view_csv_memory_mapped(path, content, delimiter, self.preview_size, max),
                ),
            },
            ViewerFormat::Json => match strategy {
                ViewStrategy::FullLoad => view_json_file(path, content),
                ViewStrategy::Streaming => Ok(view_json_streaming(path, content, max)),
                ViewStrategy::MemoryMapped => Ok(
                    view_json_memory_mapped(path, content, self.preview_size, max),
                ),
            },
            ViewerFormat::Yaml => view_yaml_file(path, content),
            ViewerFormat::Toml => view_toml_file(path, content),
            ViewerFormat::Binary => Ok(view_binary_file(path, content, self.max_bytes)),
            ViewerFormat::Parquet => match reading {
                Reading::Columnar(metadata, data) => Ok(self.view_columnar(path, metadata, data)),
                Reading::Unreadable(message) => Err(ViewError::Parse(message.clone())),
                _ => Err(
                    ViewError::Parse(
                        "a Parquet file is viewed from its metadata and rows, not from its bytes".to_owned(),
                    ),
                ),
            },
        }
    }

    /// Views the file at `path` whose content is `content`, with what was
    /// read of it besides: resolves the format and the strategy, and renders
    /// by them. The result depends on the viewer, the path, the content and
    /// the reading alone. A file without a byte is viewed without failure,
    /// unless its format needs content or the writer of its format fails.
    pub fn view_file(&self, path: &str, content: &[u8], reading: &Reading) -> (out: Result<
        String,
        ViewError,
    >)
        ensures
            outcome_view(out) == file_view(*self, path@, content@, *reading),
            content@.len() == 0 && !needs_content(
                resolved_format(self.format, path@, content@),
                resolved_strategy(self.strategy, content@.len()),
                *reading,
            ) && !is_unprintable(resolved_format(self.format, path@, content@), content@)
                ==> out is Ok,
    {
        let format = self.resolve_format(path, Some(content));
        let strategy = self.resolve_strategy(content.len() as u64);
        self.view_content(format, strategy, path, content, reading)
    }

    /// Views a columnar file from what was read of it, under the viewer's
    /// limit on rows.
    pub fn view_columnar(
        &self,
        path: &str,
        metadata: &ParquetMetadata,
        data: &Result<ParquetData, String>,
    ) -> (out: String)
        ensures
            out@ == parquet_file(path@, *metadata, *data, self.max_lines),
    {
        view_parquet_file(path, metadata, data, self.max_lines)
    }
}

/// Two views of one content under one path by one viewer, with one
/// reading, are the same, byte for byte.
pub proof fn lemma_view_is_repeatable(
    viewer: FileViewer,
    path: Seq<char>,
    content: Seq<u8>,
    reading: Reading,
    first: Result<String, ViewError>,
    second: Result<String, ViewError>,
)
    requires
        outcome_view(first) == file_view(viewer, path, content, reading),
        outcome_view(second) == file_view(viewer, path, content, reading),
    ensures
        outcome_view(first) == outcome_view(second),
        first is Ok ==> second is Ok && first->Ok_0@ == second->Ok_0@,
{
}

} // verus!
