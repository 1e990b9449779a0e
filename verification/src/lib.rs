//! Conversion between RDF serialization formats.
//!
//! The crate resolves a pair of textual format tokens to strongly typed
//! format descriptors, then drives a record-by-record conversion loop:
//! records are pulled one at a time from a record source (a parser over the
//! input document), pushed unchanged into a record sink (a serializer for
//! the output document), and counted. The first failure anywhere in the
//! pipeline aborts the conversion and is reported as a structured error.
//!
//! The conversion works on whole in-memory documents: the input is a byte
//! buffer and the output is returned as one. Records flow through the loop
//! one at a time, but peak memory is proportional to the document, not to
//! a single record; reading and writing the documents is the caller's.
//!
//! Parsing and serialization of the concrete grammars are delegated to the
//! `oxrdfio` crate; the resolver, the driver loop, the ordering and counting
//! guarantees, and the error taxonomy are verified here.

pub mod driver;
pub mod error;
pub mod format;
pub mod records;

pub use driver::{convert_document, convert_source, Conversion};
pub use error::{ConvError, Side};
pub use format::{resolve_format, resolve_pair, token_of, Format};
