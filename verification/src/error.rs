//! Errors and side-channel diagnostics.
//!
//! Structural errors abort the whole parse and carry the byte offset at
//! which the stream went wrong.  Soft anomalies never fail a parse; they
//! are collected as [`Diagnostic`] values beside the decoded bundle.

use vstd::prelude::*;
use crate::reader::TypeReaderInfo;

verus! {

/// A fatal, structural decoding failure.  Every variant records the byte
/// offset (into the buffer being read at the time) where it was detected.
#[derive(Debug)]
pub enum XnbError {
    /// The buffer does not start with the format's three magic bytes.
    BadMagic { offset: usize },
    /// The buffer ended in the middle of a required field.
    UnexpectedEof { offset: usize },
    /// A varint continuation chain ran past five bytes, more than a
    /// 32-bit accumulator can take; treated as stream corruption.
    VarintTooLong { offset: usize },
    /// A varint that must denote a count or id decoded to a negative value.
    NegativeCount { offset: usize },
    /// A length-prefixed string held invalid UTF-8.
    InvalidString { offset: usize },
    /// The declared decompressed size exceeds the 1 GiB safety cap.
    SizeTooLarge { offset: usize, size: u32 },
    /// A compression frame could not be expanded; the sliding-window state
    /// is sequential, so the rest of the document is unrecoverable.
    BadBlock { offset: usize },
    /// A content-stream type id pointed past the end of the type-reader
    /// table; almost certainly read misalignment.
    TypeIdOutOfRange { offset: usize, type_id: usize, type_count: usize },
    /// The table entry for this id names a type the static registry does
    /// not recognise, so there is no decoder to dispatch to.
    NoTypeReader { offset: usize, name: String, version: i32 },
    /// A statically-checked read found a table entry whose identity is not
    /// the expected one.
    WrongType { offset: usize, expected: TypeReaderInfo, found: TypeReaderInfo },
}

/// A soft anomaly: logged beside the result, never fatal.
#[derive(Clone, Copy, PartialEq, Eq, Structural, Debug)]
pub enum Diagnostic {
    /// The header names a platform code the engine does not know.
    UnknownPlatform { platform: u8 },
    /// The header sets flag bits the engine does not handle.
    UnhandledFlags { flags: u8 },
    /// Bytes were left unconsumed after the shared-resource table.
    TrailingBytes { count: usize },
    /// Decoding a shared-resource slot failed; that slot and all later
    /// ones were skipped.  `skipped` counts the abandoned slots.
    SharedResourcesSkipped { skipped: usize },
}

} // verus!
