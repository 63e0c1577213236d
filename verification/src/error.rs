//! Errors of decoding and of translation.

use vstd::prelude::*;
use vstd::string::StringExecFns;

verus! {

/// Where in a stream a decode error was detected.
#[derive(Debug, Clone, Copy, PartialEq, Eq)]
pub enum Site {
    /// In the document header.
    Header,
    /// Where the next record of an object list, or its END, was due.
    ObjectList,
    /// In the payload of the record with this tag.
    Record(u8),
}

/// One of the three definition tables.
#[derive(Debug, Clone, Copy, PartialEq, Eq)]
pub enum TableKind {
    Encoding,
    Font,
    Color,
}

/// The key that a translation dictionary was asked for.
#[derive(Debug, Clone, Copy, PartialEq, Eq)]
pub enum LookupKey {
    /// A character, by the parts of its identity that are present.
    Glyph { mtcode: Option<u16>, font_pos8: Option<u8>, font_pos16: Option<u16> },
    /// A template, by selector and variation.
    Macro { selector: u8, variation: u16 },
}

/// Errors related to the process of decoding and translating.
#[derive(Debug, Clone, Copy, PartialEq, Eq)]
pub enum Error {
    /// A read would run past the end of the buffer, or a value is not one
    /// that its place allows. `offset` is the byte at which this was found.
    MalformedBuffer { site: Site, offset: usize },
    /// The record type has no grammar in this version. `offset` is the
    /// place of the tag byte.
    UnsupportedRecord { tag: u8, offset: usize },
    /// An index into a definition table has no definition.
    UnresolvedIndex { table: TableKind, index: usize },
    /// The record with this tag, whose tag byte is at `offset`, would open
    /// an object list deeper than the configured bound.
    NestingOverflow { tag: u8, offset: usize },
    /// A translation dictionary holds no entry for the key.
    UnresolvedLookup { key: LookupKey },
    /// This is not a valid OLE equation stream.
    InvalidOLEFile,
}

impl Error {
    /// The text that `description` returns for this error.
    pub open spec fn message(&self) -> Seq<char> {
        match *self {
            Error::MalformedBuffer { .. } => "Buffer is truncated or holds a bad value"@,
            Error::UnsupportedRecord { .. } => "Record type is not supported"@,
            Error::UnresolvedIndex { .. } => "Table index has no definition"@,
            Error::NestingOverflow { .. } => "Object lists are nested too deeply"@,
            Error::UnresolvedLookup { .. } => "Dictionary has no entry for the key"@,
            Error::InvalidOLEFile => "Invalid OLE File"@,
        }
    }

    /// A short description of the kind of error.
    pub fn description(&self) -> (text: String)
        ensures
            text@ == self.message(),
    {
        match *self {
            Error::MalformedBuffer { .. } => String::from_str("Buffer is truncated or holds a bad value"),
            Error::UnsupportedRecord { .. } => String::from_str("Record type is not supported"),
            Error::UnresolvedIndex { .. } => String::from_str("Table index has no definition"),
            Error::NestingOverflow { .. } => String::from_str("Object lists are nested too deeply"),
            Error::UnresolvedLookup { .. } => String::from_str("Dictionary has no entry for the key"),
            Error::InvalidOLEFile => String::from_str("Invalid OLE File"),
        }
    }
}

} // verus!
