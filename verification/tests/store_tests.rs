use lecture_rag::messages::{
    AddSummaryEmbeddingReq, AddTranscriptEmbeddingReq, SimilaritySearchReq, SummaryEmbedding,
    Timestamp, TranscriptEmbedding, VectorEmbedding,
};
use lecture_rag::payload::{NumericValue, Payload, PayloadEntry, PayloadValue};
use lecture_rag::status::StatusCode;
use lecture_rag::store::{
    embedding_collection, on_collection_checked, on_collection_created, prepare_upsert,
    similarity_search_plan, similarity_search_results, summary_collection, AddSummaryAction,
    AddSummaryPhase, AddSummaryRun, AddTranscriptAction, AddTranscriptPhase, AddTranscriptRun,
    CollectionCheck, Distance, LectureStoreServerImpl, StoreEvent, EMBEDDING_DIMENSION,
    SEARCH_LIMIT,
};

fn te(timestamp: bool, embedding: bool) -> TranscriptEmbedding {
    TranscriptEmbedding {
        module: "BK".to_string(),
        timestamp: if timestamp {
            Some(Timestamp { timestamp_start_bits: 0.0f32.to_bits(), timestamp_end_bits: 12.5f32.to_bits() })
        } else {
            None
        },
        raw_content: "Einleitung".to_string(),
        lecture_name: "BK1a".to_string(),
        embedding: if embedding {
            Some(VectorEmbedding { vector_data: vec![0.25f32.to_bits(); 4] })
        } else {
            None
        },
    }
}

fn is_uuid_v4(s: &str) -> bool {
    let b: Vec<char> = s.chars().collect();
    b.len() == 36
        && b.iter().enumerate().all(|(i, c)| {
            if [8, 13, 18, 23].contains(&i) {
                *c == '-'
            } else {
                c.is_ascii_digit() || ('a'..='f').contains(c)
            }
        })
        && b[14] == '4'
        && ['8', '9', 'a', 'b'].contains(&b[19])
}

#[test]
fn server_keeps_its_settings() {
    let s = LectureStoreServerImpl::new("0.0.0.0".to_string(), 40041, "http://qdrant:6334".to_string());
    assert_eq!(s.host_name(), "0.0.0.0");
    assert_eq!(s.port_number(), 40041);
    assert_eq!(s.qdrant_url_text(), "http://qdrant:6334");
    assert_eq!(s.socket_address_text(), "0.0.0.0:40041");
}

#[test]
fn collection_names_follow_the_module() {
    assert_eq!(embedding_collection("BK"), "BK_embedding");
    assert_eq!(summary_collection("BK"), "BK_summary");
}

#[test]
fn collection_check_outcomes() {
    assert!(matches!(on_collection_checked("c", Ok(true)), CollectionCheck::Ready));
    match on_collection_checked("c", Ok(false)) {
        CollectionCheck::Create(spec) => {
            assert_eq!(spec.name, "c");
            assert_eq!(spec.dimension, 768);
            assert_eq!(spec.distance, Distance::Cosine);
        }
        _ => panic!("expected creation"),
    }
    match on_collection_checked("c", Err("timeout".to_string())) {
        CollectionCheck::Failed(s) => {
            assert_eq!(s.code, StatusCode::Internal);
            assert_eq!(s.message, "Failed to check if collection exists: timeout");
        }
        _ => panic!("expected failure"),
    }
    assert!(on_collection_created(Ok(())).is_ok());
    let s = on_collection_created(Err("exists".to_string())).err().unwrap();
    assert_eq!(s.message, "Failed to create collection: exists");
    assert_eq!(EMBEDDING_DIMENSION, 768);
}

#[test]
fn prepare_upsert_writes_into_the_module_collection() {
    let plan = prepare_upsert(te(true, true), "id-1".to_string()).ok().unwrap();
    assert_eq!(plan.collection, "BK_embedding");
    assert_eq!(plan.point_id, "id-1");
    assert_eq!(plan.vector, vec![0.25f32.to_bits(); 4]);
    assert!(plan.wait);
    assert_eq!(plan.payload.entries.len(), 4);
}

#[test]
fn prepare_upsert_without_timestamp_reports_the_builder_status() {
    let s = prepare_upsert(te(false, true), "id".to_string()).err().unwrap();
    assert_eq!(s.code, StatusCode::Internal);
    assert_eq!(
        s.message,
        "There was an error building the payload: code: 'Client specified an invalid argument', message: \"Missing field timestamp\""
    );
}

#[test]
fn prepare_upsert_without_embedding_is_invalid() {
    let s = prepare_upsert(te(true, false), "id".to_string()).err().unwrap();
    assert_eq!(s.code, StatusCode::InvalidArgument);
    assert_eq!(s.message, "Field embedding missing in TranscriptEmbedding from AddTranscriptEmbeddingReq");
}

#[test]
fn filing_a_chunk_into_an_existing_collection() {
    let (run, act) = AddTranscriptRun::start(AddTranscriptEmbeddingReq { transcript_embedding: Some(te(true, true)) });
    match act {
        AddTranscriptAction::CheckCollection(name) => assert_eq!(name, "BK_embedding"),
        _ => panic!("expected a collection check"),
    }
    let ev = StoreEvent::CollectionChecked(Ok(true));
    assert!(run.accepts(&ev));
    let (run, act) = run.step(ev);
    assert_eq!(run.phase, AddTranscriptPhase::Upserting);
    let written = match act {
        AddTranscriptAction::Upsert(plan) => {
            assert_eq!(plan.collection, "BK_embedding");
            assert!(is_uuid_v4(&plan.point_id));
            plan.point_id
        }
        _ => panic!("expected an upsert"),
    };
    let ev = StoreEvent::Upserted(Ok(()));
    assert!(run.accepts(&ev));
    let (run, act) = run.step(ev);
    assert_eq!(run.phase, AddTranscriptPhase::Finished);
    match act {
        AddTranscriptAction::Reply(Ok(res)) => assert_eq!(res.result.unwrap().qdrant_point_id, written),
        _ => panic!("expected success"),
    }
    assert!(!run.accepts(&StoreEvent::Upserted(Ok(()))));
}

#[test]
fn filing_a_chunk_creates_a_missing_collection() {
    let (run, _) = AddTranscriptRun::start(AddTranscriptEmbeddingReq { transcript_embedding: Some(te(true, true)) });
    let (run, act) = run.step(StoreEvent::CollectionChecked(Ok(false)));
    assert_eq!(run.phase, AddTranscriptPhase::CreatingCollection);
    match act {
        AddTranscriptAction::CreateCollection(spec) => {
            assert_eq!(spec.name, "BK_embedding");
            assert_eq!(spec.dimension, 768);
        }
        _ => panic!("expected creation"),
    }
    let (run, act) = run.step(StoreEvent::CollectionCreated(Ok(())));
    assert_eq!(run.phase, AddTranscriptPhase::Upserting);
    assert!(matches!(act, AddTranscriptAction::Upsert(_)));
    let (_, act) = run.step(StoreEvent::Upserted(Err("disk full".to_string())));
    match act {
        AddTranscriptAction::Reply(Err(s)) => {
            assert_eq!(s.code, StatusCode::Internal);
            assert_eq!(s.message, "Failed to upsert points: disk full");
        }
        _ => panic!("expected failure"),
    }
}

#[test]
fn filing_without_chunk_is_invalid() {
    let (run, act) = AddTranscriptRun::start(AddTranscriptEmbeddingReq { transcript_embedding: None });
    assert_eq!(run.phase, AddTranscriptPhase::Finished);
    match act {
        AddTranscriptAction::Reply(Err(s)) => {
            assert_eq!(s.code, StatusCode::InvalidArgument);
            assert_eq!(s.message, "Field transcript_embedding is missing");
        }
        _ => panic!("expected refusal"),
    }
}

#[test]
fn filing_a_chunk_without_timestamp_still_readies_the_collection() {
    let (run, act) = AddTranscriptRun::start(AddTranscriptEmbeddingReq { transcript_embedding: Some(te(false, true)) });
    assert!(matches!(act, AddTranscriptAction::CheckCollection(_)));
    let (run, act) = run.step(StoreEvent::CollectionChecked(Ok(true)));
    assert_eq!(run.phase, AddTranscriptPhase::Finished);
    match act {
        AddTranscriptAction::Reply(Err(s)) => {
            assert_eq!(s.code, StatusCode::Internal);
            assert!(s.message.starts_with("There was an error building the payload: "));
        }
        _ => panic!("expected failure"),
    }
}

#[test]
fn failed_collection_check_ends_the_filing() {
    let (run, _) = AddTranscriptRun::start(AddTranscriptEmbeddingReq { transcript_embedding: Some(te(true, true)) });
    let (run, act) = run.step(StoreEvent::CollectionChecked(Err("unreachable".to_string())));
    assert_eq!(run.phase, AddTranscriptPhase::Finished);
    match act {
        AddTranscriptAction::Reply(Err(s)) => assert_eq!(s.message, "Failed to check if collection exists: unreachable"),
        _ => panic!("expected failure"),
    }
}

#[test]
fn filing_a_summary_is_not_implemented() {
    let req = AddSummaryEmbeddingReq {
        summary_embedding: Some(SummaryEmbedding {
            module: "BK".to_string(),
            raw_content: "Zusammenfassung".to_string(),
            lecture_name: "BK1a".to_string(),
            embedding: None,
        }),
    };
    let (run, act) = AddSummaryRun::start(req);
    match act {
        AddSummaryAction::CheckCollection(name) => assert_eq!(name, "BK_summary"),
        _ => panic!("expected a collection check"),
    }
    let (run, act) = run.step(StoreEvent::CollectionChecked(Ok(true)));
    assert_eq!(run.phase, AddSummaryPhase::Finished);
    match act {
        AddSummaryAction::PrintAndReply(name, s) => {
            assert_eq!(name, "BK1a");
            assert_eq!(s.code, StatusCode::Unimplemented);
            assert_eq!(s.message, "Not implemented yet");
        }
        _ => panic!("expected unimplemented"),
    }
    let (run, act) = AddSummaryRun::start(AddSummaryEmbeddingReq { summary_embedding: None });
    assert_eq!(run.phase, AddSummaryPhase::Finished);
    match act {
        AddSummaryAction::Reply(s) => assert_eq!(s.message, "Missing summary_embedding field"),
        _ => panic!("expected refusal"),
    }
}

#[test]
fn similarity_search_asks_the_module_collection() {
    let plan = similarity_search_plan(SimilaritySearchReq {
        embedding: Some(VectorEmbedding { vector_data: vec![7, 8] }),
        module: "BK".to_string(),
    })
    .ok()
    .unwrap();
    assert_eq!(plan.collection, "BK_embedding");
    assert_eq!(plan.vector, vec![7, 8]);
    assert_eq!(plan.limit, 5);
    assert_eq!(SEARCH_LIMIT, 5);
    assert!(plan.with_payload && plan.with_vectors);
    let s = similarity_search_plan(SimilaritySearchReq { embedding: None, module: "BK".to_string() })
        .err()
        .unwrap();
    assert_eq!(s.code, StatusCode::InvalidArgument);
    assert_eq!(s.message, "Field embedding is missing in request for similarity search");
}

fn point(start: PayloadValue, text: &str) -> Payload {
    Payload {
        entries: vec![
            PayloadEntry { key: "lecture_name".to_string(), value: PayloadValue::Text("BK1a".to_string()) },
            PayloadEntry { key: "timestamp_start".to_string(), value: start },
            PayloadEntry { key: "timestamp_end".to_string(), value: PayloadValue::Integer(9) },
            PayloadEntry { key: "raw_content".to_string(), value: PayloadValue::Text(text.to_string()) },
        ],
    }
}

#[test]
fn similarity_search_results_keep_order() {
    let module = "BK".to_string();
    let hits = similarity_search_results(
        &module,
        Ok(vec![point(PayloadValue::Double(1.0f64.to_bits()), "a"), point(PayloadValue::Integer(3), "b")]),
    )
    .ok()
    .unwrap();
    assert_eq!(hits.len(), 2);
    assert_eq!(hits[0].module, "BK");
    assert_eq!(hits[0].raw_content, "a");
    assert_eq!(hits[0].timestamp_start, NumericValue::Double(1.0f64.to_bits()));
    assert_eq!(hits[0].timestamp_end, NumericValue::Integer(9));
    assert_eq!(hits[1].raw_content, "b");
    assert_eq!(hits[1].lecture_name, "BK1a");
    assert_eq!(hits[1].timestamp_start, NumericValue::Integer(3));
}

#[test]
fn similarity_search_results_stop_at_the_first_bad_point() {
    let module = "BK".to_string();
    let s = similarity_search_results(
        &module,
        Ok(vec![point(PayloadValue::Integer(1), "a"), point(PayloadValue::Text("x".to_string()), "b")]),
    )
    .err()
    .unwrap();
    assert_eq!(s.code, StatusCode::Internal);
    assert_eq!(s.message, "Point was missing field timestamp_start or it did not include a numeric value");
    let s = similarity_search_results(&module, Err("collection not found".to_string())).err().unwrap();
    assert_eq!(s.message, "Similarity search failed: collection not found");
    assert_eq!(similarity_search_results(&module, Ok(vec![])).ok().unwrap().len(), 0);
}
