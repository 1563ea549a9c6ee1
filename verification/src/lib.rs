//! A client for a track conversion service.
//!
//! A download runs in three phases: a conversion job is submitted, its status
//! is polled until the service reports a final state, and the finished file
//! is streamed to local storage. This crate holds every decision of that
//! protocol as verified code: which request to send, how an answer is to be
//! read, which state follows, and what the caller is told at the end. Network
//! and file access are left to the driver, which does what the [`Action`] of
//! a [`Session`] names and reports back with an [`Event`].

pub mod error;
pub mod format;
pub mod json;
pub mod laws;
pub mod poll;
pub mod session;
pub mod submit;
pub mod text;
pub mod transfer;

pub use error::DownloadError;
pub use format::AudioFormat;
pub use format::Encoding;
pub use poll::JobStatus;
pub use poll::StatusReply;
pub use session::Action;
pub use session::Downcida;
pub use session::Event;
pub use session::Session;
pub use submit::Account;
pub use submit::DownloadRequest;
pub use submit::JobHandle;
pub use submit::SubmissionPayload;
pub use submit::SubmissionReply;
pub use submit::Token;
pub use submit::Upload;
pub use transfer::DownloadResult;
pub use transfer::Progress;
