//! The record source and record sink: the boundary to the `oxrdfio`
//! parsers and serializers.
//!
//! A record source pulls the records of one in-memory input document, in
//! document order, until the document ends or its grammar reports a syntax
//! error. A record sink appends records one at a time to an in-memory
//! output document and is finalized once, which writes the trailing syntax
//! of the destination format.
//!
//! Both work on whole in-memory documents: the source is built over the
//! input bytes, and the sink collects the output bytes in a buffer. Both
//! are streams of an outside crate: their contents are modeled by the
//! uninterpreted functions below, and every method the driver calls is
//! wrapped in a trusted item whose contract states, over that model, what
//! the `oxrdfio` source shows.

use vstd::prelude::*;

use crate::format::Format;

verus! {

#[verifier::external_type_specification]
#[verifier::external_body]
pub struct ExQuad(oxrdf::Quad);

/// A lazy, finite, forward-only stream of the records of one input
/// document. Not restartable: a fresh source is needed for a second pass.
///
/// Holds an `oxrdfio` parser over an in-memory buffer; the parser's
/// generics prevent declaring its type directly, so the whole struct is
/// opaque and its contents are modeled by [`source_queue`] and
/// [`source_fails`].
#[verifier::external_body]
pub struct RecordSource {
    inner: oxrdfio::ReaderQuadParser<std::io::Cursor<Vec<u8>>>,
}

/// An encoder that appends records one at a time to one output document.
///
/// Holds an `oxrdfio` serializer over an in-memory buffer; the
/// serializer's generics prevent declaring its type directly, so the whole
/// struct is opaque and its contents are modeled by [`sink_emitted`].
#[verifier::external_body]
pub struct RecordSink {
    inner: oxrdfio::WriterQuadSerializer<Vec<u8>>,
}

/// How many records a parser for format `f` yields on `input` before the
/// document ends or fails. The count is determined by the format and the
/// bytes; the records themselves are not, because anonymous blank nodes
/// are given fresh identifiers on every parse, so no name is given to the
/// record sequence of a document, only to its length.
pub uninterp spec fn doc_record_count(f: Format, input: Seq<u8>) -> nat;

/// Whether a parser for format `f`, after yielding its records, reports a
/// syntax error rather than a clean end of the document. Determined by
/// the format and the bytes.
pub uninterp spec fn doc_malformed(f: Format, input: Seq<u8>) -> bool;

/// The records a source will still yield, in order.
pub uninterp spec fn source_queue(s: RecordSource) -> Seq<oxrdf::Quad>;

/// Whether a source, once its queue is exhausted, reports a syntax error
/// rather than a clean end of the document.
pub uninterp spec fn source_fails(s: RecordSource) -> bool;

/// The records successfully appended to a sink's output document so far,
/// in the order they were appended.
pub uninterp spec fn sink_emitted(k: RecordSink) -> Seq<oxrdf::Quad>;

/// The destination format a sink serializes to.
pub uninterp spec fn sink_format(k: RecordSink) -> Format;

/// Whether a sink has seen a failed emit. A refused record appends nothing
/// to the output document, but it may still disturb the serializer's
/// internal state, so nothing is stated about the bytes such a sink hands
/// back once finalized.
pub uninterp spec fn sink_tainted(k: RecordSink) -> bool;

/// Whether a record is representable in format `f`: whether the
/// serializer accepts it (for example, a record in a named graph is
/// refused by the triples-only formats). Determined by the format and the
/// record alone.
pub uninterp spec fn emit_ok(f: Format, q: oxrdf::Quad) -> bool;

/// The document that serializing `records` to format `f` yields, trailing
/// syntax included: the bytes a sink that has seen no failed emit hands
/// back once finalized after exactly those records were appended,
/// determined by the format and the records alone.
pub uninterp spec fn doc_encoded(f: Format, records: Seq<oxrdf::Quad>) -> Seq<u8>;

/// Relies on `RdfParser::from_format` and `RdfParser::for_reader` of
/// `oxrdfio`: a parser over an in-memory buffer yields the records of the
/// document in document order; how many it yields, and whether a syntax
/// error follows them, depend on the format and the bytes alone. No bound
/// is stated on the number of records: a short document can yield many
/// (a nested Turtle collection expands into several records per element).
#[verifier::external_body]
pub fn source_new(f: Format, input: Vec<u8>) -> (s: RecordSource)
    ensures
        source_queue(s).len() == doc_record_count(f, input@),
        source_fails(s) == doc_malformed(f, input@),
{
    let rf = match f {
        Format::Turtle => oxrdfio::RdfFormat::Turtle,
        Format::NTriples => oxrdfio::RdfFormat::NTriples,
        Format::NQuads => oxrdfio::RdfFormat::NQuads,
        Format::Notation3 => oxrdfio::RdfFormat::N3,
        Format::TriG => oxrdfio::RdfFormat::TriG,
        Format::RdfXml => oxrdfio::RdfFormat::RdfXml,
    };
    RecordSource { inner: oxrdfio::RdfParser::from_format(rf).for_reader(std::io::Cursor::new(input)) }
}

/// Relies on the `Iterator` impl of `oxrdfio::ReaderQuadParser`: each call
/// yields the next record in document order, `None` at a clean end of the
/// document, or the grammar's error once the malformed point is reached.
#[verifier::external_body]
pub fn source_next(s: &mut RecordSource) -> (r: Option<Result<oxrdf::Quad, String>>)
    ensures
        match r {
            Some(Ok(q)) => source_queue(*old(s)).len() > 0 && q == source_queue(*old(s))[0]
                && source_queue(*final(s)) == source_queue(*old(s)).subrange(
                1,
                source_queue(*old(s)).len() as int,
            ) && source_fails(*final(s)) == source_fails(*old(s)),
            Some(Err(_)) => source_queue(*old(s)).len() == 0 && source_fails(*old(s)),
            None => source_queue(*old(s)).len() == 0 && !source_fails(*old(s)),
        },
{
    match s.inner.next() {
        None => None,
        Some(Ok(q)) => Some(Ok(q)),
        Some(Err(e)) => Some(Err(e.to_string())),
    }
}

/// Relies on `RdfSerializer::from_format` and `RdfSerializer::for_writer`
/// of `oxrdfio`: a fresh serializer has written no record.
#[verifier::external_body]
pub fn sink_new(f: Format) -> (k: RecordSink)
    ensures
        sink_emitted(k) == Seq::<oxrdf::Quad>::empty(),
        sink_format(k) == f,
        !sink_tainted(k),
{
    let rf = match f {
        Format::Turtle => oxrdfio::RdfFormat::Turtle,
        Format::NTriples => oxrdfio::RdfFormat::NTriples,
        Format::NQuads => oxrdfio::RdfFormat::NQuads,
        Format::Notation3 => oxrdfio::RdfFormat::N3,
        Format::TriG => oxrdfio::RdfFormat::TriG,
        Format::RdfXml => oxrdfio::RdfFormat::RdfXml,
    };
    RecordSink { inner: oxrdfio::RdfSerializer::from_format(rf).for_writer(Vec::new()) }
}

/// Relies on `WriterQuadSerializer::serialize_quad` of `oxrdfio`: on
/// success exactly the given record is appended to the output document; it
/// fails if and only if the record is not representable in the destination
/// format, a test made on the record alone, and then no record is
/// appended. Writing into the in-memory buffer itself cannot fail.
#[verifier::external_body]
pub fn sink_emit(k: &mut RecordSink, q: &oxrdf::Quad) -> (r: Result<(), String>)
    ensures
        sink_format(*final(k)) == sink_format(*old(k)),
        sink_tainted(*final(k)) == (sink_tainted(*old(k)) || r is Err),
        r is Ok <==> emit_ok(sink_format(*old(k)), *q),
        r matches Ok(_) ==> sink_emitted(*final(k)) == sink_emitted(*old(k)).push(*q),
        r matches Err(_) ==> sink_emitted(*final(k)) == sink_emitted(*old(k)),
{
    match k.inner.serialize_quad(q) {
        Ok(()) => Ok(()),
        Err(e) => Err(e.to_string()),
    }
}

/// Relies on `WriterQuadSerializer::finish` of `oxrdfio`: writes the
/// trailing syntax that closes the output document and hands back the
/// underlying buffer. For a sink that has seen no failed emit, the bytes
/// are determined by the destination format and the appended records; a
/// failed emit may disturb the serializer's internal state, so nothing is
/// stated then. Called exactly once, after the last emit. For a sink over
/// an in-memory buffer it cannot fail: the line-oriented serializers hand
/// the buffer back outright, and the others can only propagate write
/// errors, which memory never raises.
#[verifier::external_body]
pub fn sink_finish(k: RecordSink) -> (r: Result<Vec<u8>, String>)
    ensures
        r is Ok,
        r matches Ok(out) ==> (sink_tainted(k) || out@ == doc_encoded(
            sink_format(k),
            sink_emitted(k),
        )),
{
    match k.inner.finish() {
        Ok(out) => Ok(out),
        Err(e) => Err(e.to_string()),
    }
}

} // verus!
