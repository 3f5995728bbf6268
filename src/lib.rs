//! Keyword search over a directory tree and whole-file reading, as pure
//! decision functions: the caller performs the file-system work and the
//! process launch, and hands the observations to this library.

pub mod fallback;
pub mod hit;
pub mod laws;
pub mod primary;
pub mod reader;
pub mod search;
pub mod text;
pub mod tool;

pub use reader::{FileError, ReadAction};
pub use tool::{FileContentParams, SearchParams, SearchTool};
pub use fallback::FallbackScan;
pub use hit::{format_report, Hit};
pub use search::{SearchAction, SearchError};
