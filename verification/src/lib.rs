//! A transport-free client core for a content-addressed package store.
//!
//! The crate decides everything the protocol asks for (digests, path tokens,
//! request addresses, how a reply is read, how an upload is segmented and what
//! an observer is told) and leaves the sending of requests to its caller.

pub mod text;
pub mod model;
pub mod token;
pub mod digest;
pub mod client;
pub mod transfer;

pub use client::{SIContentServiceClient, TransportReply};
pub use model::{ContentServiceError, FileKey, UploadResult};
pub use digest::{calculate_sha1_base64, read_file_with_hash};
pub use token::{escape_base64, restore_base64};
