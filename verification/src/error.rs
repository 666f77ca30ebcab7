//! Why a file could not be loaded.

use vstd::prelude::*;

verus! {

/// The cause of a failed load. A failed load leaves the machine as it was.
#[derive(Copy, Clone, Debug, PartialEq, Eq, Structural)]
pub enum LoadError {
    /// The file's extension is none of rom, sna, z80, bin.
    UnsupportedFormat,
    /// The file, or a block once unpacked, has not the size that its format
    /// fixes.
    SizeMismatch,
    /// The file ends inside its header.
    TruncatedHeader,
    /// The file ends inside a block of memory.
    TruncatedBlock,
    /// A page that the 48K machine has no place for.
    UnsupportedPage,
    /// The file could not be read.
    IoFailure,
    /// The user closed the dialog without choosing a file.
    LoadCancelled,
}

/// The text that tells the user of a cause.
pub open spec fn message_text(e: LoadError) -> Seq<char> {
    match e {
        LoadError::UnsupportedFormat => "unsupported file format"@,
        LoadError::SizeMismatch => "unexpected size"@,
        LoadError::TruncatedHeader => "truncated header"@,
        LoadError::TruncatedBlock => "truncated memory block"@,
        LoadError::UnsupportedPage => "unsupported memory page"@,
        LoadError::IoFailure => "the file could not be read"@,
        LoadError::LoadCancelled => "load cancelled"@,
    }
}

impl LoadError {
    /// A short text for the user.
    pub fn message(&self) -> (text: &'static str)
        ensures
            text@ == message_text(*self),
    {
        match self {
            LoadError::UnsupportedFormat => "unsupported file format",
            LoadError::SizeMismatch => "unexpected size",
            LoadError::TruncatedHeader => "truncated header",
            LoadError::TruncatedBlock => "truncated memory block",
            LoadError::UnsupportedPage => "unsupported memory page",
            LoadError::IoFailure => "the file could not be read",
            LoadError::LoadCancelled => "load cancelled",
        }
    }
}

} // verus!
