use rdformats::{convert_document, ConvError, Format};

fn utf8(bytes: Vec<u8>) -> String {
    String::from_utf8(bytes).expect("output documents of these formats are UTF-8")
}

#[test]
fn one_record_ntriples_to_nquads() {
    let input = b"<urn:a> <urn:b> \"c\" .\n".to_vec();
    let conv = convert_document(Format::NTriples, Format::NQuads, input).unwrap();
    assert_eq!(conv.count, 1);
    let out = utf8(conv.output);
    assert_eq!(out, "<urn:a> <urn:b> \"c\" .\n");
}

#[test]
fn empty_documents_convert_to_count_zero() {
    let empties: [(Format, &[u8]); 6] = [
        (Format::Turtle, b""),
        (Format::NTriples, b""),
        (Format::NQuads, b""),
        (Format::Notation3, b""),
        (Format::TriG, b""),
        (
            Format::RdfXml,
            b"<?xml version=\"1.0\"?>\n<rdf:RDF xmlns:rdf=\"http://www.w3.org/1999/02/22-rdf-syntax-ns#\"></rdf:RDF>\n",
        ),
    ];
    for (format, doc) in empties {
        let conv = convert_document(format, Format::NQuads, doc.to_vec()).unwrap();
        assert_eq!(conv.count, 0, "empty {:?} document", format);
        assert!(conv.output.is_empty(), "empty {:?} document", format);
    }
}

#[test]
fn empty_input_yields_valid_output_of_every_format() {
    let targets = [
        Format::Turtle,
        Format::NTriples,
        Format::NQuads,
        Format::Notation3,
        Format::TriG,
        Format::RdfXml,
    ];
    for target in targets {
        let conv = convert_document(Format::NTriples, target, Vec::new()).unwrap();
        assert_eq!(conv.count, 0);
        // The finalized output must itself be a well-formed document.
        let back = convert_document(target, Format::NQuads, conv.output).unwrap();
        assert_eq!(back.count, 0);
    }
}

#[test]
fn round_trip_same_format_preserves_records() {
    let input = b"<urn:s1> <urn:p> \"one\" .\n<urn:s2> <urn:p> \"two\" .\n<urn:s3> <urn:p> \"three\" .\n"
        .to_vec();
    let first = convert_document(Format::NTriples, Format::NTriples, input.clone()).unwrap();
    assert_eq!(first.count, 3);
    // Parsing the converted document again yields the same ordered records:
    // a second identical conversion is the identity on the output bytes.
    let second =
        convert_document(Format::NTriples, Format::NTriples, first.output.clone()).unwrap();
    assert_eq!(second.count, 3);
    assert_eq!(second.output, first.output);
}

#[test]
fn round_trip_through_turtle_preserves_count() {
    let input = b"<urn:s1> <urn:p> \"one\" .\n<urn:s2> <urn:p> \"two\" .\n".to_vec();
    let there = convert_document(Format::NTriples, Format::Turtle, input).unwrap();
    assert_eq!(there.count, 2);
    let back = convert_document(Format::Turtle, Format::NTriples, there.output).unwrap();
    assert_eq!(back.count, 2);
}

#[test]
fn conversion_preserves_record_order() {
    let input =
        b"<urn:s1> <urn:p> <urn:o> .\n<urn:s2> <urn:p> <urn:o> .\n<urn:s3> <urn:p> <urn:o> .\n"
            .to_vec();
    let conv = convert_document(Format::NTriples, Format::NQuads, input).unwrap();
    assert_eq!(conv.count, 3);
    let out = utf8(conv.output);
    let lines: Vec<&str> = out.lines().collect();
    assert_eq!(lines.len(), 3);
    assert!(lines[0].starts_with("<urn:s1>"));
    assert!(lines[1].starts_with("<urn:s2>"));
    assert!(lines[2].starts_with("<urn:s3>"));
}

#[test]
fn count_equals_number_of_records() {
    let mut input = Vec::new();
    for i in 0..25 {
        let line = format!("<urn:s{}> <urn:p> \"v{}\" .\n", i, i);
        input.extend_from_slice(line.as_bytes());
    }
    let conv = convert_document(Format::NTriples, Format::Turtle, input).unwrap();
    assert_eq!(conv.count, 25);
}

#[test]
fn conversion_rewrites_rather_than_copies() {
    let input = b"<urn:a> <urn:b> \"c\" .\n".to_vec();
    let conv = convert_document(Format::NTriples, Format::RdfXml, input.clone()).unwrap();
    assert_eq!(conv.count, 1);
    // The destination syntax is a different grammar: the output cannot be
    // the input handed back unchanged.
    assert_ne!(conv.output, input);
    let out = utf8(conv.output);
    assert!(out.contains("rdf:RDF"));
}

#[test]
fn parse_error_on_second_record_aborts() {
    let input = b"<urn:a> <urn:b> \"c\" .\nthis is not a triple\n".to_vec();
    match convert_document(Format::NTriples, Format::NQuads, input) {
        Err(ConvError::Parse { message }) => {
            assert!(!message.is_empty());
        }
        other => panic!("expected Parse error, got {:?}", other),
    }
}

#[test]
fn malformed_document_of_wrong_format_is_a_parse_error() {
    // A TriG graph block is not N-Triples.
    let input = b"<urn:g> { <urn:a> <urn:b> <urn:c> . }\n".to_vec();
    assert!(matches!(
        convert_document(Format::NTriples, Format::NQuads, input),
        Err(ConvError::Parse { .. })
    ));
}

#[test]
fn named_graph_cannot_be_serialized_to_a_triples_format() {
    let input = b"<urn:a> <urn:b> \"c\" <urn:g> .\n".to_vec();
    match convert_document(Format::NQuads, Format::NTriples, input) {
        Err(ConvError::Serialize { message }) => {
            assert!(!message.is_empty());
        }
        other => panic!("expected Serialize error, got {:?}", other),
    }
}

#[test]
fn named_graph_survives_a_quads_to_quads_conversion() {
    let input = b"<urn:a> <urn:b> \"c\" <urn:g> .\n".to_vec();
    let conv = convert_document(Format::NQuads, Format::TriG, input).unwrap();
    assert_eq!(conv.count, 1);
    let out = utf8(conv.output);
    assert!(out.contains("<urn:g>"));
    // The graph block is closed by the finalize step.
    assert!(out.contains('}'));
}

#[test]
fn finalize_writes_the_trailing_syntax_of_the_destination() {
    let conv = convert_document(Format::NTriples, Format::RdfXml, Vec::new()).unwrap();
    assert_eq!(conv.count, 0);
    let out = utf8(conv.output);
    assert!(out.contains("</rdf:RDF>"));
}

#[test]
fn default_graph_is_implicit_in_nquads_output() {
    let input = b"<urn:a> <urn:b> \"c\" .\n".to_vec();
    let conv = convert_document(Format::NQuads, Format::NQuads, input).unwrap();
    assert_eq!(conv.count, 1);
    let out = utf8(conv.output);
    // No fourth component: the record stays in the default graph.
    assert_eq!(out, "<urn:a> <urn:b> \"c\" .\n");
}

#[test]
fn notation3_document_converts_to_nquads() {
    let input = b"<urn:a> <urn:b> \"c\" .\n".to_vec();
    let conv = convert_document(Format::Notation3, Format::NQuads, input).unwrap();
    assert_eq!(conv.count, 1);
    assert_eq!(utf8(conv.output), "<urn:a> <urn:b> \"c\" .\n");
}

#[test]
fn turtle_prefixed_document_converts_to_ntriples() {
    let input = b"@prefix ex: <urn:ex:> .\nex:s ex:p ex:o .\n".to_vec();
    let conv = convert_document(Format::Turtle, Format::NTriples, input).unwrap();
    assert_eq!(conv.count, 1);
    let out = utf8(conv.output);
    assert_eq!(out, "<urn:ex:s> <urn:ex:p> <urn:ex:o> .\n");
}

#[test]
fn convert_source_counts_and_encodes() {
    let src = rdformats::records::source_new(Format::NTriples, b"<urn:a> <urn:b> \"c\" .\n".to_vec());
    let conv = rdformats::convert_source(src, Format::NQuads).unwrap();
    assert_eq!(conv.count, 1);
    assert_eq!(utf8(conv.output), "<urn:a> <urn:b> \"c\" .\n");
}
