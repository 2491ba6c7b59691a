//! Bounded previews of files of any size: the choice of an access strategy
//! and of a content format, and one renderer per format. Beside them stand
//! the options, the statistics and the small helpers of a directory listing.

pub mod config;
pub mod display;
pub mod error;
pub mod format;
pub mod git;
pub mod json_build;
pub mod lines;
pub mod paths;
pub mod sizes;
pub mod sorting;
pub mod stats;
pub mod strategy;
pub mod style;
pub mod textfmt;
pub mod tree;
pub mod utils;
pub mod viewer;

pub use config::{Config, OutputFormat, SortBy};
pub use display::FileInfo;
pub use error::ViewError;
pub use format::ViewerFormat;
pub use stats::TreeStats;
pub use strategy::ViewStrategy;
pub use viewer::{FileViewer, Reading, ViewerOptions, ViewerStrategy, Wanted};
