//! The format resolver: a bidirectional mapping between the closed set of
//! textual format tokens and strongly typed format descriptors.

use vstd::prelude::*;

use crate::error::{ConvError, Side};

verus! {

/// A serialization syntax the pipeline can read and write.
///
/// The set is closed: every descriptor corresponds to exactly one external
/// textual token (see [`token_of`] and [`resolve_format`]), and unknown
/// tokens never produce a descriptor.
#[derive(Clone, Copy, Debug, PartialEq, Eq, Structural)]
pub enum Format {
    Turtle,
    NTriples,
    NQuads,
    Notation3,
    TriG,
    RdfXml,
}

/// The descriptor a token resolves to, if the token is recognized.
/// Matching is case-sensitive and exact.
pub open spec fn spec_format_of(token: Seq<char>) -> Option<Format> {
    if token == "ttl"@ {
        Some(Format::Turtle)
    } else if token == "nt"@ {
        Some(Format::NTriples)
    } else if token == "nq"@ {
        Some(Format::NQuads)
    } else if token == "n3"@ {
        Some(Format::Notation3)
    } else if token == "trig"@ {
        Some(Format::TriG)
    } else if token == "rdf/xml"@ {
        Some(Format::RdfXml)
    } else {
        None
    }
}

/// The unique textual token of a descriptor.
pub open spec fn spec_token_of(f: Format) -> Seq<char> {
    match f {
        Format::Turtle => "ttl"@,
        Format::NTriples => "nt"@,
        Format::NQuads => "nq"@,
        Format::Notation3 => "n3"@,
        Format::TriG => "trig"@,
        Format::RdfXml => "rdf/xml"@,
    }
}

/// Character-by-character string equality.
fn str_eq(a: &str, b: &str) -> (r: bool)
    ensures
        r <==> a@ == b@,
{
    let alen = a.unicode_len();
    let blen = b.unicode_len();
    if alen != blen {
        return false;
    }
    let mut i: usize = 0;
    while i < alen
        invariant
            0 <= i <= alen,
            alen == a@.len(),
            alen == b@.len(),
            forall|j: int| 0 <= j < i ==> a@[j] == b@[j],
        decreases alen - i,
    {
        if a.get_char(i) != b.get_char(i) {
            return false;
        }
        i += 1;
    }
    proof {
        assert(a@ =~= b@);
    }
    true
}

/// Maps one format token to its descriptor. A token outside the recognized
/// set is rejected with an `InvalidFormat` error naming the offending token
/// and the side it was requested for. No side effects.
pub fn resolve_format(token: &str, side: Side) -> (r: Result<Format, ConvError>)
    ensures
        match r {
            Ok(f) => spec_format_of(token@) == Some(f),
            Err(e) => spec_format_of(token@) is None && (e matches ConvError::InvalidFormat {
                token: t,
                side: s,
            } && t@ == token@ && s == side),
        },
{
    if str_eq(token, "ttl") {
        Ok(Format::Turtle)
    } else if str_eq(token, "nt") {
        Ok(Format::NTriples)
    } else if str_eq(token, "nq") {
        Ok(Format::NQuads)
    } else if str_eq(token, "n3") {
        Ok(Format::Notation3)
    } else if str_eq(token, "trig") {
        Ok(Format::TriG)
    } else if str_eq(token, "rdf/xml") {
        Ok(Format::RdfXml)
    } else {
        Err(ConvError::InvalidFormat { token: token.to_owned(), side })
    }
}

/// Resolves the source and destination tokens of one conversion, in that
/// order, failing fast on the first unrecognized token. The two resolutions
/// are independent; they may select the same or different descriptors.
/// Nothing is read or written: resolution precedes all input and output.
pub fn resolve_pair(from_token: &str, to_token: &str) -> (r: Result<(Format, Format), ConvError>)
    ensures
        match r {
            Ok((f, t)) => spec_format_of(from_token@) == Some(f) && spec_format_of(to_token@)
                == Some(t),
            Err(e) => e matches ConvError::InvalidFormat { token: tk, side: s } && match s {
                Side::Source => spec_format_of(from_token@) is None && tk@ == from_token@,
                Side::Destination => spec_format_of(from_token@) is Some && spec_format_of(
                    to_token@,
                ) is None && tk@ == to_token@,
            },
        },
{
    let from = resolve_format(from_token, Side::Source)?;
    let to = resolve_format(to_token, Side::Destination)?;
    Ok((from, to))
}

/// The textual token of a descriptor, the inverse of [`resolve_format`].
pub fn token_of(f: Format) -> (r: &'static str)
    ensures
        r@ == spec_token_of(f),
{
    match f {
        Format::Turtle => "ttl",
        Format::NTriples => "nt",
        Format::NQuads => "nq",
        Format::Notation3 => "n3",
        Format::TriG => "trig",
        Format::RdfXml => "rdf/xml",
    }
}

/// Every descriptor is bidirectionally mappable to exactly one token:
/// resolving the token of a descriptor yields that descriptor back.
pub proof fn lemma_token_round_trip(f: Format)
    ensures
        spec_format_of(spec_token_of(f)) == Some(f),
{
    reveal_strlit("ttl");
    reveal_strlit("nt");
    reveal_strlit("nq");
    reveal_strlit("n3");
    reveal_strlit("trig");
    reveal_strlit("rdf/xml");
    assert("ttl"@.len() == 3);
    assert("nt"@.len() == 2);
    assert("nq"@.len() == 2);
    assert("n3"@.len() == 2);
    assert("trig"@.len() == 4);
    assert("rdf/xml"@.len() == 7);
    assert("nt"@[1] == 't' && "nq"@[1] == 'q' && "n3"@[1] == '3');
}

} // verus!
