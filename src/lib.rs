//! An asset source that reads files straight from filesystem paths.
//!
//! The library holds the decisions of the reader: which file a request goes
//! to, when it fails with `NotFound` so that the host can try another source,
//! how an I/O failure is reported, and which directory entries are listed.
//! The I/O itself is done by the caller, which hands the outcomes back as
//! plain values.
mod error;
mod path;
mod plugin;
mod reader;

pub use error::{AssetReaderError, FailureKind, ReadFailure};
pub use path::{meta_path_of, meta_suffix, path_extension, path_with_extension};
pub use plugin::{file_scheme, FileAssetPlugin};
pub use reader::{
    is_meta_target_of, is_not_found, is_read_result_of, is_step_of, lemma_absent_file_not_found,
    lemma_listing_keeps_exactly_readable, lemma_no_extension_not_found, no_extension_text,
    readable_entries, FileAssetReader, Step,
};
