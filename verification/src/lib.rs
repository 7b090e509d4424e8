//! A periodic mail-count monitor block.
//!
//! On each poll the host scans a maildir-style directory, the library
//! extracts the sender of the first `From:` header line of every regular
//! file, and derives a short display text plus a severity signal for a
//! status surface.  The host owns all filesystem access and scheduling;
//! this crate holds the verified scan, extraction, summary and severity
//! logic together with its contracts.

pub mod errors;
pub mod header;
pub mod monitor;
pub mod text;

pub use errors::Error;
pub use header::examine_line;
pub use header::extract_sender;
pub use monitor::Maildir;
pub use monitor::MaildirConfig;
pub use monitor::State;
