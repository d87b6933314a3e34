//! Metadata cleaning for photos: display names, the tag-counting model,
//! the ExifTool result checks, the per-file cleaning protocol, and the
//! table of files of the last drop.
pub mod error;
pub mod job;
pub mod locate;
pub mod rows;
pub mod tags;
pub mod text;

pub use error::CleanError;
pub use job::{clean_file, CleanEvent, CleanStep};
pub use locate::{
    exiftool_candidates, find_exiftool, first_existing, ExiftoolCandidate, ExiftoolLocation,
};
pub use rows::{CleanResult, CleanState, CleanerApp, FileRow};
pub use tags::{
    count_tags_arguments, count_tags_exiftool, count_tags_in_records, strip_metadata_arguments,
    strip_metadata_exiftool,
};
pub use text::display_file_name;
