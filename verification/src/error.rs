//! The errors that configuring a package or fetching an artifact can end in.

use vstd::prelude::*;

verus! {

/// One diagnostic of the configuration parser: the byte range it points at
/// and its description.
#[derive(Debug, Clone, PartialEq, Eq)]
pub struct ParserDiagnostic {
    pub lo: usize,
    pub hi: usize,
    pub desc: String,
}

/// Why an invocation stopped.
#[derive(Debug, Clone, PartialEq, Eq)]
pub enum BldrError {
    /// Configuration text did not parse; the parser's diagnostics, never empty.
    TomlParser(Vec<ParserDiagnostic>),
    /// A URL ends in no file name.
    CannotParseFileName,
    /// A write reported zero bytes although data remained.
    WriteSyncFailed,
}

impl BldrError {
    /// A one-line description of the error.
    pub fn describe(&self) -> (out: String)
        ensures
            out@ == match self {
                BldrError::TomlParser(_) => "Failed to parse toml"@,
                BldrError::CannotParseFileName => "Cannot determine the filename from the given URI"@,
                BldrError::WriteSyncFailed =>
                    "Could not write to destination; bytes written was 0 on a non-0 buffer"@,
            },
    {
        match self {
            BldrError::TomlParser(_) => "Failed to parse toml".to_owned(),
            BldrError::CannotParseFileName => "Cannot determine the filename from the given URI".to_owned(),
            BldrError::WriteSyncFailed =>
                "Could not write to destination; bytes written was 0 on a non-0 buffer".to_owned(),
        }
    }
}

} // verus!
