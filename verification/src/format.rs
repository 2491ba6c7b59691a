//! Choice of the content format from a path and a sample of the content.

use crate::paths::{extension_of, path_extension};
use crate::textfmt::{lowercased, same_text, to_lower};
use vstd::prelude::*;
use vstd::string::*;

verus! {

/// Number of leading bytes that are looked at to tell text from binary.
pub const SAMPLE_SIZE: usize = 512;

/// The content format of a view. `Auto` stands for a format still to be
/// detected; no renderer takes it.
#[derive(Debug, Clone, Copy, PartialEq, Eq, Structural)]
pub enum ViewerFormat {
    Auto,
    Text,
    Binary,
    Json,
    Yaml,
    Toml,
    Csv,
    Parquet,
}

/// Whether one of the first 512 bytes of `sample` is zero.
pub open spec fn has_null_byte(sample: Seq<u8>) -> bool {
    exists|i: int| 0 <= i < sample.len() && i < SAMPLE_SIZE && sample[i] == 0
}

/// The format that a lower-case extension stands for, if it is a known one.
pub open spec fn format_of_extension(ext: Seq<char>) -> Option<ViewerFormat> {
    if ext == "json"@ {
        Some(ViewerFormat::Json)
    } else if ext == "yaml"@ || ext == "yml"@ {
        Some(ViewerFormat::Yaml)
    } else if ext == "toml"@ {
        Some(ViewerFormat::Toml)
    } else if ext == "csv"@ {
        Some(ViewerFormat::Csv)
    } else if ext == "parquet"@ {
        Some(ViewerFormat::Parquet)
    } else if ext == "txt"@ || ext == "md"@ || ext == "rs"@ || ext == "py"@ || ext == "js"@ || ext
        == "ts"@ || ext == "html"@ || ext == "css"@ || ext == "xml"@ {
        Some(ViewerFormat::Text)
    } else {
        None
    }
}

/// The format that a sample of the content stands for: binary where a zero
/// byte is among its first 512 bytes, text otherwise, and text where no
/// sample could be had.
pub open spec fn format_of_sample(sample: Option<Seq<u8>>) -> ViewerFormat {
    match sample {
        Some(bytes) if has_null_byte(bytes) => ViewerFormat::Binary,
        _ => ViewerFormat::Text,
    }
}

/// The format of a file: the override where one is given; else the format of
/// the extension, compared in lower case; else the format of the sample.
pub open spec fn detected_format(
    extension: Option<Seq<char>>,
    override_format: Option<ViewerFormat>,
    sample: Option<Seq<u8>>,
) -> ViewerFormat {
    match override_format {
        Some(format) => format,
        None => match extension {
            Some(ext) => match format_of_extension(lowercased(ext)) {
                Some(format) => format,
                None => format_of_sample(sample),
            },
            None => format_of_sample(sample),
        },
    }
}

/// Whether a sample of a file's content looks binary: one of its first 512
/// bytes is zero.
pub fn is_binary_file(sample: &[u8]) -> (binary: bool)
    ensures
        binary == has_null_byte(sample@),
{
    let mut i: usize = 0;
    while i < sample.len() && i < SAMPLE_SIZE
        invariant
            i <= sample@.len(),
            i <= SAMPLE_SIZE,
            forall|k: int| 0 <= k < i ==> sample@[k] != 0,
        decreases sample@.len() - i,
    {
        if sample[i] == 0 {
            return true;
        }
        i += 1;
    }
    false
}

/// The format that a lower-case extension stands for.
pub fn known_extension(ext: &str) -> (format: Option<ViewerFormat>)
    ensures
        format == format_of_extension(ext@),
{
    if same_text(ext, "json") {
        Some(ViewerFormat::Json)
    } else if same_text(ext, "yaml") || same_text(ext, "yml") {
        Some(ViewerFormat::Yaml)
    } else if same_text(ext, "toml") {
        Some(ViewerFormat::Toml)
    } else if same_text(ext, "csv") {
        Some(ViewerFormat::Csv)
    } else if same_text(ext, "parquet") {
        Some(ViewerFormat::Parquet)
    } else if same_text(ext, "txt") || same_text(ext, "md") || same_text(ext, "rs") || same_text(
        ext,
        "py",
    ) || same_text(ext, "js") || same_text(ext, "ts") || same_text(ext, "html") || same_text(
        ext,
        "css",
    ) || same_text(ext, "xml") {
        Some(ViewerFormat::Text)
    } else {
        None
    }
}

/// The format of the sample of a file without a telling extension.
pub fn sniff_format(sample: Option<&[u8]>) -> (format: ViewerFormat)
    ensures
        format == format_of_sample(
            match sample {
                Some(bytes) => Some(bytes@),
                None => None,
            },
        ),
        format == ViewerFormat::Binary || format == ViewerFormat::Text,
{
    match sample {
        Some(bytes) => {
            if is_binary_file(bytes) {
                ViewerFormat::Binary
            } else {
                ViewerFormat::Text
            }
        },
        None => ViewerFormat::Text,
    }
}

/// The format by an extension, an override and a sample.
pub fn format_for(
    extension: Option<&str>,
    override_format: Option<ViewerFormat>,
    sample: Option<&[u8]>,
) -> (format: ViewerFormat)
    ensures
        format == detected_format(
            match extension {
                Some(ext) => Some(ext@),
                None => None,
            },
            override_format,
            match sample {
                Some(bytes) => Some(bytes@),
                None => None,
            },
        ),
        override_format is None ==> format != ViewerFormat::Auto,
{
    match override_format {
        Some(format) => format,
        None => match extension {
            Some(ext) => {
                let lower = to_lower(ext);
                match known_extension(lower.as_str()) {
                    Some(format) => format,
                    None => sniff_format(sample),
                }
            },
            None => sniff_format(sample),
        },
    }
}

/// The format of the file at `path`. An override is returned as it is.
/// Without one, the extension of the path decides, whatever its case; a
/// path with no extension or an unknown one gets the format of `sample`, the
/// leading bytes of the file, or text where `sample` is `None` because the
/// file could not be read.
pub fn detect_format(
    path: &str,
    override_format: Option<ViewerFormat>,
    sample: Option<&[u8]>,
) -> (format: ViewerFormat)
    ensures
        format == detected_format(
            path_extension(path@),
            override_format,
            match sample {
                Some(bytes) => Some(bytes@),
                None => None,
            },
        ),
        override_format is None ==> format != ViewerFormat::Auto,
{
    match override_format {
        Some(format) => format,
        None => {
            let ext = extension_of(path);
            match &ext {
                Some(e) => format_for(Some(e.as_str()), None, sample),
                None => format_for(None, None, sample),
            }
        },
    }
}

} // verus!
