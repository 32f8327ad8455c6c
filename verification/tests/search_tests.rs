use lecture_rag::messages::{
    AddTranscriptEmbeddingRes, Chunk, EmbeddingResult, NewEmbeddingRes, Timestamp, TranscribeReq,
    TranscribedRes, Transcription, VectorEmbedding,
};
use lecture_rag::search::{
    add_summary_embedding, add_transcript_embedding_request, embed_request, search,
    similarity_search_request, TranscribeAction, TranscribeEvent, TranscribePhase, TranscribeRun,
    MAX_MESSAGE_SIZE,
};
use lecture_rag::status::{Status, StatusCode};

fn ts(a: f32, b: f32) -> Timestamp {
    Timestamp { timestamp_start_bits: a.to_bits(), timestamp_end_bits: b.to_bits() }
}

fn request() -> TranscribeReq {
    TranscribeReq {
        file_payload: Some(vec![1, 2, 3]),
        lecture_name: "BK1a".to_string(),
        module: "BK".to_string(),
    }
}

fn transcript(n: usize) -> TranscribedRes {
    TranscribedRes {
        payload: Some(Transcription {
            chunks: (0..n)
                .map(|i| Chunk { text: format!("chunk {}", i), timestamp: Some(ts(i as f32, i as f32 + 1.0)) })
                .collect(),
        }),
    }
}

fn vector(i: u32) -> NewEmbeddingRes {
    NewEmbeddingRes {
        result: Some(EmbeddingResult::Vector(VectorEmbedding { vector_data: vec![i, i + 1] })),
    }
}

#[test]
fn request_builders() {
    let r = embed_request("Hallo".to_string());
    assert_eq!(r.to_embed.unwrap().raw_content, "Hallo");
    let r = add_transcript_embedding_request(
        "BK".to_string(),
        ts(1.0, 2.0),
        "text".to_string(),
        "BK1a".to_string(),
        VectorEmbedding { vector_data: vec![5] },
    );
    let te = r.transcript_embedding.unwrap();
    assert_eq!(te.module, "BK");
    assert_eq!(te.timestamp, Some(ts(1.0, 2.0)));
    assert_eq!(te.raw_content, "text");
    assert_eq!(te.lecture_name, "BK1a");
    assert_eq!(te.embedding.unwrap().vector_data, vec![5]);
    let r = similarity_search_request("BK".to_string(), VectorEmbedding { vector_data: vec![9] });
    assert_eq!(r.module, "BK");
    assert_eq!(r.embedding.unwrap().vector_data, vec![9]);
    assert_eq!(MAX_MESSAGE_SIZE, 100 * 1024 * 1024);
}

#[test]
fn unimplemented_calls() {
    let s = add_summary_embedding().err().unwrap();
    assert_eq!(s.code, StatusCode::Unimplemented);
    assert_eq!(s.message, "Not implemented");
    let s = search();
    assert_eq!(s.code, StatusCode::Unimplemented);
    assert_eq!(s.message, "Not implemented");
}

#[test]
fn transcription_files_every_chunk_in_order() {
    let (mut run, act) = TranscribeRun::start(request());
    match act {
        TranscribeAction::Transcribe(w) => {
            assert_eq!(w.file_payload, Some(vec![1, 2, 3]));
            assert_eq!(w.lecture_name, "BK1a");
            assert_eq!(w.module, "BK");
        }
        _ => panic!("expected transcription request"),
    }
    let mut event = TranscribeEvent::Transcribed(Ok(transcript(3)));
    let mut filed = Vec::new();
    let mut embedded = 0u32;
    let reply = loop {
        assert!(run.accepts(&event));
        let (next, act) = run.step(event);
        run = next;
        match act {
            TranscribeAction::Embed(req) => {
                assert_eq!(req.to_embed.unwrap().raw_content, format!("chunk {}", embedded));
                event = TranscribeEvent::Embedded(Some(vector(embedded)));
                embedded += 1;
            }
            TranscribeAction::Store(req) => {
                filed.push(req.transcript_embedding.unwrap());
                event = TranscribeEvent::Stored(Some(AddTranscriptEmbeddingRes { result: None }));
            }
            TranscribeAction::Reply(r) => break r,
            TranscribeAction::Transcribe(_) => panic!("transcribed twice"),
        }
    };
    assert!(reply.ok().unwrap().error_message.is_none());
    assert_eq!(run.phase, TranscribePhase::Finished);
    assert_eq!(filed.len(), 3);
    for (i, te) in filed.iter().enumerate() {
        assert_eq!(te.raw_content, format!("chunk {}", i));
        assert_eq!(te.module, "BK");
        assert_eq!(te.lecture_name, "BK1a");
        assert_eq!(te.timestamp, Some(ts(i as f32, i as f32 + 1.0)));
        assert_eq!(te.embedding.as_ref().unwrap().vector_data, vec![i as u32, i as u32 + 1]);
    }
}

#[test]
fn empty_transcript_succeeds_at_once() {
    let (run, _) = TranscribeRun::start(request());
    let (run, act) = run.step(TranscribeEvent::Transcribed(Ok(transcript(0))));
    assert_eq!(run.phase, TranscribePhase::Finished);
    assert!(matches!(act, TranscribeAction::Reply(Ok(_))));
}

fn error_of(act: TranscribeAction) -> Status {
    match act {
        TranscribeAction::Reply(Err(s)) => s,
        _ => panic!("expected an error reply"),
    }
}

#[test]
fn missing_recording_is_invalid() {
    let mut req = request();
    req.file_payload = None;
    let (run, act) = TranscribeRun::start(req);
    assert_eq!(run.phase, TranscribePhase::Finished);
    let s = error_of(act);
    assert_eq!(s.code, StatusCode::InvalidArgument);
    assert_eq!(s.message, "Missing file payload");
}

#[test]
fn transcription_failures() {
    let (run, _) = TranscribeRun::start(request());
    let failure = Status::new(StatusCode::Unavailable, "down".to_string());
    let (run, act) = run.step(TranscribeEvent::Transcribed(Err(failure)));
    assert_eq!(run.phase, TranscribePhase::Finished);
    let s = error_of(act);
    assert_eq!(s.code, StatusCode::Internal);
    assert_eq!(
        s.message,
        "Sending request to whisper service resulted in error: code: 'Internal error', message: \"Transcription failed: down (status: Unavailable)\""
    );

    let (run, _) = TranscribeRun::start(request());
    let (_, act) = run.step(TranscribeEvent::Transcribed(Ok(TranscribedRes { payload: None })));
    let s = error_of(act);
    assert_eq!(s.code, StatusCode::Aborted);
    assert_eq!(s.message, "Transcription failed");
}

fn at_first_embedding() -> TranscribeRun {
    let (run, _) = TranscribeRun::start(request());
    run.step(TranscribeEvent::Transcribed(Ok(transcript(2)))).0
}

#[test]
fn embedding_failures() {
    let s = error_of(at_first_embedding().step(TranscribeEvent::Embedded(None)).1);
    assert_eq!(s.code, StatusCode::Internal);
    assert_eq!(s.message, "Failed to embed error: Failed to create embedding");

    let s = error_of(at_first_embedding().step(TranscribeEvent::Embedded(Some(NewEmbeddingRes { result: None }))).1);
    assert_eq!(s.message, "Embedding service returned empty result");

    let s = error_of(
        at_first_embedding()
            .step(TranscribeEvent::Embedded(Some(NewEmbeddingRes {
                result: Some(EmbeddingResult::ErrorMsg("model not loaded".to_string())),
            })))
            .1,
    );
    assert_eq!(s.message, "Embedding failed: model not loaded");
}

#[test]
fn chunk_without_timestamp_fails_after_embedding() {
    let (run, _) = TranscribeRun::start(request());
    let t = TranscribedRes {
        payload: Some(Transcription { chunks: vec![Chunk { text: "x".to_string(), timestamp: None }] }),
    };
    let (run, act) = run.step(TranscribeEvent::Transcribed(Ok(t)));
    assert!(matches!(act, TranscribeAction::Embed(_)));
    let s = error_of(run.step(TranscribeEvent::Embedded(Some(vector(0)))).1);
    assert_eq!(s.code, StatusCode::Internal);
    assert_eq!(s.message, "Chunk was missing timestamp");
}

#[test]
fn filing_failure_ends_the_transcription() {
    let (run, act) = at_first_embedding().step(TranscribeEvent::Embedded(Some(vector(0))));
    assert!(matches!(act, TranscribeAction::Store(_)));
    assert!(!run.accepts(&TranscribeEvent::Embedded(None)));
    let (run, act) = run.step(TranscribeEvent::Stored(None));
    assert_eq!(run.phase, TranscribePhase::Finished);
    let s = error_of(act);
    assert_eq!(s.code, StatusCode::Internal);
    assert_eq!(
        s.message,
        "Error while trying to add embedding of chunk: code: 'Internal error', message: \"Error while trying to add embedding\""
    );
    assert!(!run.accepts(&TranscribeEvent::Stored(None)));
}
