//! The conversion driver: pulls records one at a time from a record
//! source, pushes each into a record sink, counts them, and stops at the
//! first failure.

use vstd::prelude::*;

use crate::error::ConvError;
use crate::format::Format;
use crate::records::{
    doc_encoded, doc_malformed, doc_record_count, emit_ok, sink_emit, sink_emitted, sink_finish,
    sink_format, sink_new, sink_tainted, source_fails, source_new, source_next, source_queue,
    RecordSink, RecordSource,
};

verus! {

/// The outcome of a successful conversion: the serialized output document
/// and the number of records converted.
#[derive(Debug)]
pub struct Conversion {
    /// How many records were pulled from the source and appended to the
    /// output document. Zero is valid: an empty document converts to an
    /// empty document. The counter saturates at `u64::MAX` instead of
    /// overflowing — out of reach for any document that fits in memory.
    pub count: u64,
    /// The bytes of the converted document, finalized with the trailing
    /// syntax of the destination format.
    pub output: Vec<u8>,
}

/// The conversion loop. Pulls one record at a time from `source` and
/// appends it, unchanged, to `sink`, until the source is exhausted; counts
/// one per record that is both successfully pulled and successfully
/// appended; stops at the first failure and reports it without appending
/// anything further.
///
/// The outcome is determined: if every record of the source is
/// representable in the sink's format and the source ends cleanly, the
/// loop succeeds, the sink gains exactly the source's records in source
/// order, and the count is exactly their number (saturating at
/// `u64::MAX`). If every record is representable but the source then
/// fails, the result is `Parse`, with every yielded record appended. If
/// some record is not representable, the result is `Serialize` at the
/// first such record, with exactly the records before it appended. Only a
/// refused record taints the sink.
pub fn pump(source: RecordSource, sink: &mut RecordSink) -> (r: Result<u64, ConvError>)
    ensures
        sink_format(*final(sink)) == sink_format(*old(sink)),
        match r {
            Ok(n) => !source_fails(source) && (forall|i: int|
                0 <= i < source_queue(source).len() ==> #[trigger] emit_ok(
                    sink_format(*old(sink)),
                    source_queue(source)[i],
                )) && (source_queue(source).len() <= u64::MAX ==> n as nat == source_queue(
                source,
            ).len()) && (source_queue(source).len() > u64::MAX ==> n == u64::MAX) && sink_emitted(
                *final(sink),
            ) == sink_emitted(*old(sink)) + source_queue(source) && sink_tainted(*final(sink))
                == sink_tainted(*old(sink)),
            Err(e) => match e {
                ConvError::Parse { .. } => source_fails(source) && (forall|i: int|
                    0 <= i < source_queue(source).len() ==> #[trigger] emit_ok(
                        sink_format(*old(sink)),
                        source_queue(source)[i],
                    )) && sink_emitted(*final(sink)) == sink_emitted(*old(sink)) + source_queue(
                    source,
                ) && sink_tainted(*final(sink)) == sink_tainted(*old(sink)),
                ConvError::Serialize { .. } => sink_tainted(*final(sink)) && exists|i: int|
                    0 <= i < source_queue(source).len() && !(#[trigger] emit_ok(
                        sink_format(*old(sink)),
                        source_queue(source)[i],
                    )) && (forall|j: int|
                        0 <= j < i ==> #[trigger] emit_ok(
                            sink_format(*old(sink)),
                            source_queue(source)[j],
                        )) && sink_emitted(*final(sink)) == sink_emitted(*old(sink))
                        + source_queue(source).subrange(0, i),
                _ => false,
            },
        },
{
    let ghost q0 = source_queue(source);
    let ghost f0 = source_fails(source);
    let ghost e0 = sink_emitted(*sink);
    let ghost fmt0 = sink_format(*sink);
    let ghost t0 = sink_tainted(*sink);
    let mut src = source;
    let mut count: u64 = 0;
    let ghost mut processed: nat = 0;
    loop
        invariant
            processed <= q0.len(),
            q0 == source_queue(source),
            f0 == source_fails(source),
            e0 == sink_emitted(*old(sink)),
            fmt0 == sink_format(*old(sink)),
            t0 == sink_tainted(*old(sink)),
            source_queue(src) == q0.subrange(processed as int, q0.len() as int),
            source_fails(src) == f0,
            sink_format(*sink) == fmt0,
            sink_tainted(*sink) == t0,
            sink_emitted(*sink) == e0 + q0.subrange(0, processed as int),
            forall|j: int| 0 <= j < processed ==> #[trigger] emit_ok(fmt0, q0[j]),
            processed <= u64::MAX ==> count as nat == processed,
            processed > u64::MAX ==> count == u64::MAX,
        decreases q0.len() - processed,
    {
        let ghost pulled = source_queue(src);
        match source_next(&mut src) {
            None => {
                proof {
                    assert(processed == q0.len());
                    assert(e0 + q0.subrange(0, processed as int) =~= e0 + q0);
                }
                return Ok(count);
            },
            Some(Err(message)) => {
                proof {
                    assert(processed == q0.len());
                    assert(e0 + q0.subrange(0, processed as int) =~= e0 + q0);
                }
                return Err(ConvError::Parse { message });
            },
            Some(Ok(quad)) => {
                proof {
                    assert(pulled.len() > 0);
                    assert(processed < q0.len());
                    assert(quad == q0[processed as int]);
                }
                match sink_emit(sink, &quad) {
                    Ok(_) => {
                        proof {
                            assert(emit_ok(fmt0, q0[processed as int]));
                            assert(source_queue(src) =~= q0.subrange(
                                processed as int + 1,
                                q0.len() as int,
                            ));
                            assert((e0 + q0.subrange(0, processed as int)).push(quad) =~= e0
                                + q0.subrange(0, processed as int + 1));
                        }
                        if count < u64::MAX {
                            count = count + 1;
                        }
                        proof {
                            processed = processed + 1;
                        }
                    },
                    Err(message) => {
                        proof {
                            assert((processed as int) < source_queue(source).len());
                            assert(!emit_ok(fmt0, q0[processed as int]));
                            assert(sink_emitted(*sink) == sink_emitted(*old(sink))
                                + source_queue(source).subrange(0, processed as int));
                        }
                        return Err(ConvError::Serialize { message });
                    },
                }
            },
        }
    }
}

/// Converts the records of one source into a document of format `to`:
/// builds a fresh sink, runs the conversion loop, and, only on a fully
/// successful pass, finalizes the sink.
///
/// The outcome is completely determined by the source and the destination
/// format: if every record is representable in `to` and the source ends
/// cleanly, the conversion succeeds with the exact record count
/// (saturating at `u64::MAX`) and the encoding of exactly the source's
/// records, in order; if every record is representable but the source
/// fails, the result is `Parse`; if some record is not representable, the
/// result is `Serialize` at the first such record. Finalizing an
/// in-memory sink cannot fail, so no other error is possible. On failure
/// the partially serialized document is discarded: the serializer
/// releases its buffer only when finalized, and a failed conversion is
/// never finalized.
pub fn convert_source(source: RecordSource, to: Format) -> (r: Result<Conversion, ConvError>)
    ensures
        match r {
            Ok(c) => !source_fails(source) && (forall|i: int|
                0 <= i < source_queue(source).len() ==> #[trigger] emit_ok(
                    to,
                    source_queue(source)[i],
                )) && (source_queue(source).len() <= u64::MAX ==> c.count as nat == source_queue(
                source,
            ).len()) && (source_queue(source).len() > u64::MAX ==> c.count == u64::MAX)
                && c.output@ == doc_encoded(to, source_queue(source)),
            Err(e) => match e {
                ConvError::Parse { .. } => source_fails(source) && (forall|i: int|
                    0 <= i < source_queue(source).len() ==> #[trigger] emit_ok(
                        to,
                        source_queue(source)[i],
                    )),
                ConvError::Serialize { .. } => exists|i: int|
                    0 <= i < source_queue(source).len() && !(#[trigger] emit_ok(
                        to,
                        source_queue(source)[i],
                    )) && (forall|j: int|
                        0 <= j < i ==> #[trigger] emit_ok(to, source_queue(source)[j])),
                _ => false,
            },
        },
{
    let mut sink = sink_new(to);
    match pump(source, &mut sink) {
        Ok(count) => match sink_finish(sink) {
            Ok(output) => {
                proof {
                    assert(Seq::<oxrdf::Quad>::empty() + source_queue(source) =~= source_queue(
                        source,
                    ));
                }
                Ok(Conversion { count, output })
            },
            Err(message) => Err(ConvError::Finalize { message }),
        },
        Err(e) => Err(e),
    }
}

/// Converts one in-memory document from format `from` to format `to`.
///
/// Builds a record source over the input and converts its records. The
/// first failure aborts the conversion: a malformed input is reported as
/// `Parse`, a record not representable in the destination format as
/// `Serialize`; no other error can occur, and an empty well-formed
/// document always converts, to a count of zero. On success the count is
/// exactly the number of records of the document (saturating at
/// `u64::MAX`), and the output is the destination format's encoding of
/// exactly that many records.
pub fn convert_document(from: Format, to: Format, input: Vec<u8>) -> (r: Result<
    Conversion,
    ConvError,
>)
    ensures
        match r {
            Ok(c) => !doc_malformed(from, input@) && (doc_record_count(from, input@) <= u64::MAX
                ==> c.count as nat == doc_record_count(from, input@)) && (doc_record_count(
                from,
                input@,
            ) > u64::MAX ==> c.count == u64::MAX),
            Err(e) => match e {
                ConvError::Parse { .. } => doc_malformed(from, input@),
                ConvError::Serialize { .. } => doc_record_count(from, input@) > 0,
                _ => false,
            },
        },
        !doc_malformed(from, input@) && doc_record_count(from, input@) == 0 ==> r is Ok,
        r matches Ok(c) ==> exists|records: Seq<oxrdf::Quad>|
            records.len() == doc_record_count(from, input@) && c.output@ == #[trigger] doc_encoded(
                to,
                records,
            ),
{
    let source = source_new(from, input);
    let r = convert_source(source, to);
    proof {
        if r is Ok {
            assert(r->Ok_0.output@ == doc_encoded(to, source_queue(source)));
        }
    }
    r
}

/// Order preservation: when a sink has received exactly the records of a
/// source, in order, the record at offset `n` past what the sink held
/// before is the `n`-th record the source yielded. Conversion never
/// reorders.
pub proof fn lemma_order_preservation(
    sink0: RecordSink,
    sink1: RecordSink,
    source: RecordSource,
    n: int,
)
    requires
        sink_emitted(sink1) == sink_emitted(sink0) + source_queue(source),
        0 <= n < source_queue(source).len(),
    ensures
        sink_emitted(sink1)[sink_emitted(sink0).len() + n] == source_queue(source)[n],
{
}

/// Count accuracy: when a sink has received exactly the records of a
/// source, the number of records it gained is exactly the number the
/// source yielded — no record is skipped or double-counted.
pub proof fn lemma_count_accuracy(sink0: RecordSink, sink1: RecordSink, source: RecordSource)
    requires
        sink_emitted(sink1) == sink_emitted(sink0) + source_queue(source),
    ensures
        sink_emitted(sink1).len() == sink_emitted(sink0).len() + source_queue(source).len(),
{
}

} // verus!
