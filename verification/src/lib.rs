//! Decoder for a versioned, optionally-compressed binary container format
//! that ships structured game-content documents.  A document holds one
//! primary object plus a table of shared objects referenced by index.
//!
//! The crate covers the generic container engine: the byte cursor, the
//! 7-bit varint codec, the header parser, the compression-frame expander,
//! the per-document type-reader table, the two object-dispatch primitives,
//! and the shared-resource table.  Concrete content decoders are supplied
//! by the caller through the reader traits.
//!
//! Beside the engine stand the element rules of the game the documents
//! come from: how conjured elements react with one another, and which
//! spell a queued bag of elements resolves to.

pub mod cursor;
pub mod dispatch;
pub mod element;
pub mod error;
pub mod header;
pub mod lzx;
pub mod reader;
pub mod registry;
pub mod spell_resolve;
pub mod types;
pub mod varint;
pub mod xnb;
