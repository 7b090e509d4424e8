//! The scan-time fault taxonomy.

use vstd::prelude::*;

verus! {

/// A fault met while polling the directory.  Any of these aborts the whole
/// poll: there is no partial-result mode, and the display pair left by the
/// last successful poll stays untouched.
#[derive(Clone, Copy, Debug, PartialEq, Eq, Structural)]
pub enum Error {
    /// The configured directory could not be opened for listing.
    DirectoryOpenError,
    /// Enumerating the directory failed mid-iteration.
    EntryListError,
    /// An entry's file type could not be determined.
    MetadataError,
    /// A regular file could not be opened.
    FileOpenError,
    /// Reading a line from an open file failed.
    LineReadError,
    /// A `From:` line could not be decoded as a header field.
    HeaderParseError,
}

} // verus!
