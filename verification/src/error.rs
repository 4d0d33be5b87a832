//! The errors that the builders report.
use vstd::prelude::*;

verus! {

/// A wire was asked for between entities of which one has no number yet.
#[derive(Debug, Clone, Copy, PartialEq, Eq, Structural)]
pub struct KeyError;

impl KeyError {
    /// The error as a line of text.
    pub fn message(&self) -> (text: String)
        ensures
            text@ == "Mapping key not found.\n"@,
    {
        "Mapping key not found.\n".to_owned()
    }
}

/// A blueprint could not be generated; the text says why.
#[derive(Debug)]
pub struct BluePrintError(pub String);

impl BluePrintError {
    /// The error as a line of text: the reason, then a line break.
    pub fn message(&self) -> (text: String)
        ensures
            text@ == self.0@ + "\n"@,
    {
        let mut text = self.0.clone();
        text.append("\n");
        text
    }
}

/// Why an exchange string could not be taken apart.
#[derive(Debug, Clone, Copy, PartialEq, Eq, Structural)]
pub enum CodecError {
    /// What follows the version marker is not canonical base64.
    Base64,
    /// The decoded bytes are no zlib stream of UTF-8 text.
    Zlib,
    /// The decompressed text is no JSON.
    Json,
}

/// Why a text could not be made into an exchange string.
#[derive(Debug, Clone, Copy, PartialEq, Eq, Structural)]
pub enum EncodeError {
    /// The text is no JSON.
    Json,
    /// The compressor reported an error.
    Zlib,
}

} // verus!
