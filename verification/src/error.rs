//! The error taxonomy of the conversion pipeline.

use vstd::prelude::*;

verus! {

/// Which side of a conversion a format token was requested for.
#[derive(Clone, Copy, Debug, PartialEq, Eq, Structural)]
pub enum Side {
    /// The format the input document is parsed as.
    Source,
    /// The format the output document is serialized as.
    Destination,
}

/// The first failure of a conversion, reported to the caller unchanged.
///
/// Every error is detected at its origin and immediately terminates the
/// whole conversion; there is no retry, recovery, or aggregation.
#[derive(Debug)]
pub enum ConvError {
    /// A format token that is not one of the recognized strings, together
    /// with the side it was requested for. Detected before any input is
    /// read.
    InvalidFormat { token: String, side: Side },
    /// The input location could not be opened for reading.
    InputOpen { path: String, message: String },
    /// The output location could not be created or opened for writing.
    OutputCreate { path: String, message: String },
    /// The input document is malformed; the message describes the offending
    /// position or content as reported by the grammar.
    Parse { message: String },
    /// A record could not be represented in the destination format, or the
    /// serializer failed to write it.
    Serialize { message: String },
    /// The trailing syntax that closes the output document could not be
    /// written. Distinct from mid-stream serialization errors: it signals a
    /// close-time problem rather than a data problem.
    Finalize { message: String },
    /// Buffered output could not be flushed to the underlying channel.
    Flush { message: String },
}

} // verus!
