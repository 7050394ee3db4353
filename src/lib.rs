//! A client library over an S3-compatible object store: the decision logic of
//! bulk deletion by key prefix, and the validation of pre-signed upload
//! durations.
pub mod bulk;
pub mod errors;
pub mod laws;
pub mod presign;

pub use bulk::{Aborted, Action, BatchResult, BulkDelete, DeleteSummary, Event, Page};
pub use errors::Errs;
pub use presign::{PreSignErr, DEFAULT_EXPIRE_SECS, MAX_EXPIRE_SECS};
