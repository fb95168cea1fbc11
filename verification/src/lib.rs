//! Gzip compression of byte buffers and planning of zip extraction.
//!
//! The crate works on bytes held in memory. `gzip` produces a gzip stream and
//! confirms that it decodes back to its source; `extract` reads a zip archive
//! and says, entry by entry, what has to be created on disk; `path` decides
//! whether a relative path stays below the directory it is resolved against;
//! `failure` is the error vocabulary the other modules share.

pub mod failure;
pub mod path;
pub mod gzip;
pub mod extract;
