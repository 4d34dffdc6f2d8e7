//! Attachment extraction for parsed e-mail messages.
//!
//! The crate walks the part tree of a parsed MIME message, flattens every
//! nested message into an ordered list of attachments, filters that list by
//! content type, and plans the batch of file operations that stores it with
//! rollback on the first failure.

pub mod attachment;
pub mod error;
pub mod message;
pub mod extractor;
pub mod filter;
pub mod options;
pub mod writer;
pub mod laws;
pub mod api;

pub use api::{extract, extract_within, plan_store, plan_store_from_opts, plan_store_within};
pub use attachment::{Attachment, ContentBytes};
pub use error::ExtractError;
pub use extractor::{get_attachments, get_attachments_within};
pub use filter::filter_by_mime_type;
pub use options::StoreOptions;
pub use writer::{file_path, DiskWriter, WriteAction, WriteOutcome};
