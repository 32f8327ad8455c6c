use lecture_rag::messages::{SummaryEmbedding, Timestamp, TranscriptEmbedding, VectorEmbedding};
use lecture_rag::payload::{
    build_summary_payload, build_transcript_payload, extract_f32_from_payload,
    extract_string_from_payload, NumericValue, Payload, PayloadEntry, PayloadValue,
};
use lecture_rag::status::StatusCode;

fn chunk(timestamp: Option<Timestamp>) -> TranscriptEmbedding {
    TranscriptEmbedding {
        module: "Mod 1".to_string(),
        timestamp,
        raw_content: "Heute geht es um Graphen".to_string(),
        lecture_name: "BK1a".to_string(),
        embedding: Some(VectorEmbedding { vector_data: vec![1.0f32.to_bits(), 0.5f32.to_bits()] }),
    }
}

fn ts(start: f32, end: f32) -> Timestamp {
    Timestamp { timestamp_start_bits: start.to_bits(), timestamp_end_bits: end.to_bits() }
}

#[test]
fn transcript_payload_holds_the_four_fields() {
    let p = build_transcript_payload(&chunk(Some(ts(1.5, 4.25)))).ok().unwrap();
    let keys: Vec<&str> = p.entries.iter().map(|e| e.key.as_str()).collect();
    assert_eq!(keys, vec!["timestamp_start", "timestamp_end", "raw_content", "lecture_name"]);
}

#[test]
fn transcript_payload_reads_back() {
    let p = build_transcript_payload(&chunk(Some(ts(1.5, 4.25)))).ok().unwrap();
    assert_eq!(
        extract_f32_from_payload(&p, "timestamp_start").ok().unwrap(),
        NumericValue::Single(1.5f32.to_bits())
    );
    assert_eq!(
        extract_f32_from_payload(&p, "timestamp_end").ok().unwrap(),
        NumericValue::Single(4.25f32.to_bits())
    );
    assert_eq!(extract_string_from_payload(&p, "raw_content").ok().unwrap(), "Heute geht es um Graphen");
    assert_eq!(extract_string_from_payload(&p, "lecture_name").ok().unwrap(), "BK1a");
}

#[test]
fn transcript_payload_needs_timestamp() {
    let err = build_transcript_payload(&chunk(None)).err().unwrap();
    assert_eq!(err.code, StatusCode::InvalidArgument);
    assert_eq!(err.message, "Missing field timestamp");
}

#[test]
fn summary_payload_holds_text_and_lecture() {
    let p = build_summary_payload(&SummaryEmbedding {
        module: "Mod 2".to_string(),
        raw_content: "Zusammenfassung".to_string(),
        lecture_name: "BK2".to_string(),
        embedding: None,
    });
    assert_eq!(p.entries.len(), 2);
    assert_eq!(extract_string_from_payload(&p, "raw_content").ok().unwrap(), "Zusammenfassung");
    assert_eq!(extract_string_from_payload(&p, "lecture_name").ok().unwrap(), "BK2");
}

fn payload(entries: Vec<(&str, PayloadValue)>) -> Payload {
    Payload {
        entries: entries
            .into_iter()
            .map(|(k, v)| PayloadEntry { key: k.to_string(), value: v })
            .collect(),
    }
}

#[test]
fn numbers_are_read_from_doubles_and_integers() {
    let p = payload(vec![
        ("a", PayloadValue::Double(2.5f64.to_bits())),
        ("b", PayloadValue::Integer(-3)),
        ("c", PayloadValue::Text("x".to_string())),
        ("d", PayloadValue::Missing),
        ("e", PayloadValue::Bool(true)),
    ]);
    assert_eq!(extract_f32_from_payload(&p, "a").ok().unwrap(), NumericValue::Double(2.5f64.to_bits()));
    assert_eq!(extract_f32_from_payload(&p, "b").ok().unwrap(), NumericValue::Integer(-3));
    for field in ["c", "d", "e", "zzz"] {
        let err = extract_f32_from_payload(&p, field).err().unwrap();
        assert_eq!(err.code, StatusCode::Internal);
        assert_eq!(
            err.message,
            format!("Point was missing field {} or it did not include a numeric value", field)
        );
    }
}

#[test]
fn text_is_read_only_from_strings() {
    let p = payload(vec![
        ("name", PayloadValue::Text("Graphen".to_string())),
        ("n", PayloadValue::Integer(1)),
        ("null", PayloadValue::Null),
    ]);
    assert_eq!(extract_string_from_payload(&p, "name").ok().unwrap(), "Graphen");
    for field in ["n", "null", "missing"] {
        let err = extract_string_from_payload(&p, field).err().unwrap();
        assert_eq!(err.code, StatusCode::Internal);
        assert_eq!(err.message, format!("Point was missing field {} or it was not a string", field));
    }
}

#[test]
fn lookup_takes_the_first_entry_of_a_name() {
    let p = payload(vec![
        ("k", PayloadValue::Text("first".to_string())),
        ("k", PayloadValue::Text("second".to_string())),
    ]);
    assert_eq!(extract_string_from_payload(&p, "k").ok().unwrap(), "first");
}
