//! Verified core of an HTTP-streaming playlist downloader.
//!
//! The library resolves a master/media playlist chain to a concrete media
//! playlist, decides between resuming and restarting a destination directory
//! from a persisted download record, coordinates a bounded-concurrency,
//! fail-fast segment batch, and rewrites the manifest's references to local
//! basenames.  Network and filesystem work is done by callers; every decision
//! the library makes is stated in a contract and proved.

use vstd::prelude::*;

pub mod batch;
pub mod builder;
pub mod cache;
pub mod fsmodel;
pub mod hashing;
pub mod parsing;
pub mod pathutil;
pub mod playlist;
pub mod resolver;
pub mod strutil;
pub mod urlutil;
pub mod video;

verus! {

/// The failures the downloader distinguishes.
#[derive(Clone, Copy, Debug, PartialEq, Eq, Structural)]
pub enum DownloadError {
    /// A network or transport failure while reaching a URL.
    FetchError,
    /// Malformed manifest bytes.
    ParseError,
    /// A master playlist with no usable variant, an unresolvable URI,
    /// or a redirect chain that is too deep.
    ResolutionError,
    /// A filesystem create/write/rename/sync failure.
    IOError,
    /// The persisted record was unreadable or malformed.
    CacheError,
    /// A non-zero exit from the external muxer or player.
    ExternalProcessError,
}

} // verus!
