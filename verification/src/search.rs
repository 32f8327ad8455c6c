//! The lecture search coordinator: it sends a recording to the speech-to-text service,
//! has every chunk of the transcript embedded, and files each chunk with its embedding in
//! the vector store front end. The remote calls are made by the caller; the functions here
//! build the requests and decide, after each answer, what comes next.
use vstd::prelude::*;
use crate::messages::{
    AddTranscriptEmbeddingReq, Chunk, EmbeddingResult, NewEmbeddingReq, NewEmbeddingRes, RawText,
    SimilaritySearchReq, Timestamp, TranscribeReq, TranscribeRes, TranscribedRes,
    TranscriptEmbedding, VectorEmbedding,
};
use crate::status::{
    code_debug_text, code_description, code_name, code_number, status_display, status_is, status_text, Status,
    StatusCode,
};

verus! {

/// The largest message, in bytes, that the coordinator sends to or accepts from a service.
pub const MAX_MESSAGE_SIZE: usize = 104857600;

/// The request that asks the embedding service to embed `text`.
pub fn embed_request(text: String) -> (req: NewEmbeddingReq)
    ensures
        req.to_embed matches Some(t) && t.raw_content == text,
{
    NewEmbeddingReq { to_embed: Some(RawText { raw_content: text }) }
}

/// `req` files the chunk `raw_content` of `lecture_name` in `module`, with its timestamp and
/// embedding.
pub open spec fn store_request_is(
    req: AddTranscriptEmbeddingReq,
    module: Seq<char>,
    timestamp: Timestamp,
    raw_content: Seq<char>,
    lecture_name: Seq<char>,
    embedding: VectorEmbedding,
) -> bool {
    req.transcript_embedding matches Some(te) && te.module@ == module && te.timestamp == Some(
        timestamp,
    ) && te.raw_content@ == raw_content && te.lecture_name@ == lecture_name && te.embedding
        == Some(embedding)
}

/// The request that files a transcript chunk with its embedding in the vector store front
/// end.
pub fn add_transcript_embedding_request(
    module: String,
    timestamp: Timestamp,
    raw_content: String,
    lecture_name: String,
    embedding: VectorEmbedding,
) -> (req: AddTranscriptEmbeddingReq)
    ensures
        store_request_is(req, module@, timestamp, raw_content@, lecture_name@, embedding),
{
    AddTranscriptEmbeddingReq {
        transcript_embedding: Some(
            TranscriptEmbedding {
                module,
                timestamp: Some(timestamp),
                raw_content,
                lecture_name,
                embedding: Some(embedding),
            },
        ),
    }
}

/// The request that asks the vector store front end for the chunks of `module` nearest to
/// `embedding`.
pub fn similarity_search_request(module: String, embedding: VectorEmbedding) -> (req:
    SimilaritySearchReq)
    ensures
        req.module == module,
        req.embedding == Some(embedding),
{
    SimilaritySearchReq { embedding: Some(embedding), module }
}

/// Filing summaries is not offered by the coordinator: the answer is always that it is not
/// implemented.
pub fn add_summary_embedding() -> (r: Result<(), Status>)
    ensures
        r matches Err(s) && status_is(s, StatusCode::Unimplemented, "Not implemented"@),
{
    Err(Status::new(StatusCode::Unimplemented, String::from_str("Not implemented")))
}

/// Searching lectures is not offered yet: the answer is always that it is not implemented.
pub fn search() -> (s: Status)
    ensures
        status_is(s, StatusCode::Unimplemented, "Not implemented"@),
{
    Status::new(StatusCode::Unimplemented, String::from_str("Not implemented"))
}

/// How a failed call of the speech-to-text service is described: its message and the name
/// of its code.
pub open spec fn whisper_failure_text(code: StatusCode, message: Seq<char>) -> Seq<char> {
    "Transcription failed: "@ + message + " (status: "@ + code_name(code_number(code)) + ")"@
}

/// The description of a failed call of the speech-to-text service.
pub fn whisper_failure_message(failure: &Status) -> (t: String)
    ensures
        t@ == whisper_failure_text(failure.code, failure.message@),
{
    let name = code_debug_text(failure.code_value());
    let mut t = String::from_str("Transcription failed: ");
    t.append(failure.message.as_str());
    t.append(" (status: ");
    t.append(name.as_str());
    t.append(")");
    t
}

/// The message with which a transcription fails when the speech-to-text call fails: the
/// internal status that the speech-to-text client reports, as text.
pub open spec fn whisper_error_message(failure: Status) -> Seq<char> {
    "Sending request to whisper service resulted in error: "@ + status_display(
        13i32,
        whisper_failure_text(failure.code, failure.message@),
    )
}

/// The message with which a transcription fails when the embedding call fails.
pub open spec fn embed_error_message() -> Seq<char> {
    "Failed to embed error: Failed to create embedding"@
}

/// The message with which a transcription fails when filing a chunk fails: the internal
/// status that the vector store client reports, as text.
pub open spec fn store_error_message() -> Seq<char> {
    "Error while trying to add embedding of chunk: "@ + ("code: '"@ + code_description(13)
        + "', message: \""@ + "Error while trying to add embedding"@ + "\""@)
}

/// Where a transcription stands.
#[derive(Clone, Copy, Debug, PartialEq, Eq, Structural)]
pub enum TranscribePhase {
    AwaitingTranscript,
    AwaitingEmbedding,
    AwaitingStore,
    Finished,
}

/// A transcription in progress: the lecture it is for, the transcript's chunks once they
/// are known, and the chunk being worked on.
pub struct TranscribeRun {
    pub phase: TranscribePhase,
    pub module: String,
    pub lecture_name: String,
    pub chunks: Vec<Chunk>,
    pub next: usize,
}

/// What a remote service answered. `None` stands for a failed embedding or filing call.
pub enum TranscribeEvent {
    Transcribed(Result<TranscribedRes, Status>),
    Embedded(Option<NewEmbeddingRes>),
    Stored(Option<crate::messages::AddTranscriptEmbeddingRes>),
}

/// What to do next in a transcription.
pub enum TranscribeAction {
    Transcribe(TranscribeReq),
    Embed(NewEmbeddingReq),
    Store(AddTranscriptEmbeddingReq),
    Reply(Result<TranscribeRes, Status>),
}

/// The run waits for `ev`.
pub open spec fn transcribe_accepts(run: TranscribeRun, ev: TranscribeEvent) -> bool {
    match run.phase {
        TranscribePhase::AwaitingTranscript => ev is Transcribed,
        TranscribePhase::AwaitingEmbedding => ev is Embedded && run.next < run.chunks@.len(),
        TranscribePhase::AwaitingStore => ev is Stored && run.next < run.chunks@.len(),
        TranscribePhase::Finished => false,
    }
}

/// How a transcription begins: without a recording it is refused as an invalid argument;
/// with one, the recording is sent to the speech-to-text service with the lecture's name
/// and module.
pub open spec fn transcribe_start_is(req: TranscribeReq, run: TranscribeRun, act: TranscribeAction) -> bool {
    &&& run.module@ == req.module@
    &&& run.lecture_name@ == req.lecture_name@
    &&& run.chunks@.len() == 0
    &&& run.next == 0
    &&& match req.file_payload {
        None => {
            &&& run.phase == TranscribePhase::Finished
            &&& act matches TranscribeAction::Reply(Err(s)) && status_is(
                s,
                StatusCode::InvalidArgument,
                "Missing file payload"@,
            )
        },
        Some(p) => {
            &&& run.phase == TranscribePhase::AwaitingTranscript
            &&& act matches TranscribeAction::Transcribe(w) && w.file_payload == Some(p)
                && w.lecture_name@ == req.lecture_name@ && w.module@ == req.module@
        },
    }
}

/// `post` is about the same lecture as `pre`.
pub open spec fn same_lecture(pre: TranscribeRun, post: TranscribeRun) -> bool {
    post.module@ == pre.module@ && post.lecture_name@ == pre.lecture_name@
}

/// The run goes on at chunk `i`: it asks for that chunk's embedding or, past the last
/// chunk, answers with success.
pub open spec fn continues_at(post: TranscribeRun, i: int, act: TranscribeAction) -> bool {
    &&& post.next == i
    &&& if i < post.chunks@.len() {
        &&& post.phase == TranscribePhase::AwaitingEmbedding
        &&& act matches TranscribeAction::Embed(r) && r.to_embed matches Some(t)
            && t.raw_content@ == post.chunks@[i].text@
    } else {
        &&& post.phase == TranscribePhase::Finished
        &&& act matches TranscribeAction::Reply(Ok(res)) && res.error_message is None
    }
}

/// The run ends answering with an error of the given code and message.
pub open spec fn ends_with_error(
    pre: TranscribeRun,
    post: TranscribeRun,
    act: TranscribeAction,
    code: StatusCode,
    message: Seq<char>,
) -> bool {
    &&& same_lecture(pre, post)
    &&& post.chunks == pre.chunks
    &&& post.next == pre.next
    &&& post.phase == TranscribePhase::Finished
    &&& act matches TranscribeAction::Reply(Err(s)) && status_is(s, code, message)
}

/// One step of a transcription: the answer of a remote service decides the next call or
/// the answer to the caller.
pub open spec fn transcribe_step_is(
    pre: TranscribeRun,
    ev: TranscribeEvent,
    post: TranscribeRun,
    act: TranscribeAction,
) -> bool {
    match ev {
        TranscribeEvent::Transcribed(Err(f)) => ends_with_error(
            pre,
            post,
            act,
            StatusCode::Internal,
            whisper_error_message(f),
        ),
        TranscribeEvent::Transcribed(Ok(res)) => match res.payload {
            None => ends_with_error(pre, post, act, StatusCode::Aborted, "Transcription failed"@),
            Some(t) => same_lecture(pre, post) && post.chunks == t.chunks && continues_at(
                post,
                0,
                act,
            ),
        },
        TranscribeEvent::Embedded(None) => ends_with_error(
            pre,
            post,
            act,
            StatusCode::Internal,
            embed_error_message(),
        ),
        TranscribeEvent::Embedded(Some(r)) => match r.result {
            None => ends_with_error(
                pre,
                post,
                act,
                StatusCode::Internal,
                "Embedding service returned empty result"@,
            ),
            Some(EmbeddingResult::ErrorMsg(e)) => ends_with_error(
                pre,
                post,
                act,
                StatusCode::Internal,
                "Embedding failed: "@ + e@,
            ),
            Some(EmbeddingResult::Vector(v)) => match pre.chunks@[pre.next as int].timestamp {
                None => ends_with_error(
                    pre,
                    post,
                    act,
                    StatusCode::Internal,
                    "Chunk was missing timestamp"@,
                ),
                Some(ts) => {
                    &&& same_lecture(pre, post)
                    &&& post.chunks == pre.chunks
                    &&& post.next == pre.next
                    &&& post.phase == TranscribePhase::AwaitingStore
                    &&& act matches TranscribeAction::Store(req) && store_request_is(
                        req,
                        pre.module@,
                        ts,
                        pre.chunks@[pre.next as int].text@,
                        pre.lecture_name@,
                        v,
                    )
                },
            },
        },
        TranscribeEvent::Stored(None) => ends_with_error(
            pre,
            post,
            act,
            StatusCode::Internal,
            store_error_message(),
        ),
        TranscribeEvent::Stored(Some(_)) => same_lecture(pre, post) && post.chunks == pre.chunks
            && continues_at(post, pre.next + 1, act),
    }
}

fn error_reply(
    module: String,
    lecture_name: String,
    chunks: Vec<Chunk>,
    next: usize,
    status: Status,
) -> (r: (TranscribeRun, TranscribeAction))
    ensures
        r.0.phase == TranscribePhase::Finished,
        r.0.module == module,
        r.0.lecture_name == lecture_name,
        r.0.chunks == chunks,
        r.0.next == next,
        r.1 == TranscribeAction::Reply(Err(status)),
{
    (
        TranscribeRun { phase: TranscribePhase::Finished, module, lecture_name, chunks, next },
        TranscribeAction::Reply(Err(status)),
    )
}

fn internal(message: &str) -> (s: Status)
    ensures
        status_is(s, StatusCode::Internal, message@),
{
    Status::new(StatusCode::Internal, String::from_str(message))
}

fn continue_at(module: String, lecture_name: String, chunks: Vec<Chunk>, i: usize) -> (r: (
    TranscribeRun,
    TranscribeAction,
))
    ensures
        r.0.module == module,
        r.0.lecture_name == lecture_name,
        r.0.chunks == chunks,
        continues_at(r.0, i as int, r.1),
{
    if i < chunks.len() {
        let text = chunks[i].text.clone();
        (
            TranscribeRun {
                phase: TranscribePhase::AwaitingEmbedding,
                module,
                lecture_name,
                chunks,
                next: i,
            },
            TranscribeAction::Embed(embed_request(text)),
        )
    } else {
        (
            TranscribeRun { phase: TranscribePhase::Finished, module, lecture_name, chunks, next: i },
            TranscribeAction::Reply(Ok(TranscribeRes { error_message: None })),
        )
    }
}

impl TranscribeRun {
    /// Begins the transcription that `req` asks for.
    pub fn start(req: TranscribeReq) -> (r: (TranscribeRun, TranscribeAction))
        ensures
            transcribe_start_is(req, r.0, r.1),
            req.file_payload is Some <==> r.0.phase == TranscribePhase::AwaitingTranscript,
            req.file_payload is None <==> r.1 is Reply,
    {
        let TranscribeReq { file_payload, lecture_name, module } = req;
        match file_payload {
            None => error_reply(
                module,
                lecture_name,
                Vec::new(),
                0,
                Status::new(StatusCode::InvalidArgument, String::from_str("Missing file payload")),
            ),
            Some(p) => {
                let forwarded = TranscribeReq {
                    file_payload: Some(p),
                    lecture_name: lecture_name.clone(),
                    module: module.clone(),
                };
                (
                    TranscribeRun {
                        phase: TranscribePhase::AwaitingTranscript,
                        module,
                        lecture_name,
                        chunks: Vec::new(),
                        next: 0,
                    },
                    TranscribeAction::Transcribe(forwarded),
                )
            },
        }
    }

    /// Whether the run waits for `ev`.
    pub fn accepts(&self, ev: &TranscribeEvent) -> (b: bool)
        ensures
            b == transcribe_accepts(*self, *ev),
            self.phase == TranscribePhase::AwaitingTranscript && ev is Transcribed ==> b,
            self.phase == TranscribePhase::AwaitingEmbedding && self.next < self.chunks@.len()
                && ev is Embedded ==> b,
            self.phase == TranscribePhase::AwaitingStore && self.next < self.chunks@.len()
                && ev is Stored ==> b,
            self.phase == TranscribePhase::Finished ==> !b,
    {
        match self.phase {
            TranscribePhase::AwaitingTranscript => match ev {
                TranscribeEvent::Transcribed(_) => true,
                _ => false,
            },
            TranscribePhase::AwaitingEmbedding => match ev {
                TranscribeEvent::Embedded(_) => self.next < self.chunks.len(),
                _ => false,
            },
            TranscribePhase::AwaitingStore => match ev {
                TranscribeEvent::Stored(_) => self.next < self.chunks.len(),
                _ => false,
            },
            TranscribePhase::Finished => false,
        }
    }

    /// Takes the answer of a remote service and decides the next call or the answer to the
    /// caller.
    pub fn step(self, ev: TranscribeEvent) -> (r: (TranscribeRun, TranscribeAction))
        requires
            transcribe_accepts(self, ev),
        ensures
            transcribe_step_is(self, ev, r.0, r.1),
    {
        let TranscribeRun { phase: _, module, lecture_name, chunks, next } = self;
        match ev {
            TranscribeEvent::Transcribed(Err(f)) => {
                let detail = status_text(13, whisper_failure_message(&f).as_str());
                let mut message = String::from_str(
                    "Sending request to whisper service resulted in error: ",
                );
                message.append(detail.as_str());
                error_reply(
                    module,
                    lecture_name,
                    chunks,
                    next,
                    Status::new(StatusCode::Internal, message),
                )
            },
            TranscribeEvent::Transcribed(Ok(res)) => match res.payload {
                None => error_reply(
                    module,
                    lecture_name,
                    chunks,
                    next,
                    Status::new(StatusCode::Aborted, String::from_str("Transcription failed")),
                ),
                Some(t) => continue_at(module, lecture_name, t.chunks, 0),
            },
            TranscribeEvent::Embedded(None) => error_reply(
                module,
                lecture_name,
                chunks,
                next,
                internal("Failed to embed error: Failed to create embedding"),
            ),
            TranscribeEvent::Embedded(Some(r)) => match r.result {
                None => error_reply(
                    module,
                    lecture_name,
                    chunks,
                    next,
                    internal("Embedding service returned empty result"),
                ),
                Some(EmbeddingResult::ErrorMsg(e)) => {
                    let mut message = String::from_str("Embedding failed: ");
                    message.append(e.as_str());
                    error_reply(
                        module,
                        lecture_name,
                        chunks,
                        next,
                        Status::new(StatusCode::Internal, message),
                    )
                },
                Some(EmbeddingResult::Vector(v)) => match chunks[next].timestamp {
                    None => error_reply(
                        module,
                        lecture_name,
                        chunks,
                        next,
                        internal("Chunk was missing timestamp"),
                    ),
                    Some(ts) => {
                        let req = add_transcript_embedding_request(
                            module.clone(),
                            ts,
                            chunks[next].text.clone(),
                            lecture_name.clone(),
                            v,
                        );
                        (
                            TranscribeRun {
                                phase: TranscribePhase::AwaitingStore,
                                module,
                                lecture_name,
                                chunks,
                                next,
                            },
                            TranscribeAction::Store(req),
                        )
                    },
                },
            },
            TranscribeEvent::Stored(None) => {
                proof {
                    reveal_strlit("Error while trying to add embedding");
                }
                let detail = status_text(13, "Error while trying to add embedding");
                let mut message = String::from_str("Error while trying to add embedding of chunk: ");
                message.append(detail.as_str());
                error_reply(
                    module,
                    lecture_name,
                    chunks,
                    next,
                    Status::new(StatusCode::Internal, message),
                )
            },
            TranscribeEvent::Stored(Some(_)) => {
                let count = chunks.len();
                assert(next < count);
                continue_at(module, lecture_name, chunks, next + 1)
            },
        }
    }
}

} // verus!

verus! {

/// A transcription answers exactly once: a step that answers ends the run, which then
/// waits for nothing more, and a step that does not answer leaves it waiting.
pub proof fn law_transcription_answers_once(
    pre: TranscribeRun,
    ev: TranscribeEvent,
    post: TranscribeRun,
    act: TranscribeAction,
)
    requires
        transcribe_accepts(pre, ev),
        transcribe_step_is(pre, ev, post, act),
    ensures
        act is Reply <==> post.phase == TranscribePhase::Finished,
        act is Reply ==> forall|next: TranscribeEvent| !transcribe_accepts(post, next),
        !(act is Reply) ==> exists|next: TranscribeEvent| transcribe_accepts(post, next),
{
    if !(act is Reply) {
        match post.phase {
            TranscribePhase::AwaitingEmbedding => {
                assert(transcribe_accepts(post, TranscribeEvent::Embedded(None)));
            },
            _ => {
                assert(transcribe_accepts(post, TranscribeEvent::Stored(None)));
            },
        }
    }
}

/// The calls that a transcription still needs once its transcript is known: an embedding
/// and a filing for each chunk not yet filed.
pub open spec fn remaining_calls(run: TranscribeRun) -> int {
    match run.phase {
        TranscribePhase::AwaitingEmbedding => 2 * (run.chunks@.len() - run.next),
        TranscribePhase::AwaitingStore => 2 * (run.chunks@.len() - run.next) - 1,
        _ => 0,
    }
}

/// Once the transcript is known, every answer of a service brings the transcription one
/// call closer to its end: it needs at most two calls per chunk.
pub proof fn law_transcription_progresses(
    pre: TranscribeRun,
    ev: TranscribeEvent,
    post: TranscribeRun,
    act: TranscribeAction,
)
    requires
        transcribe_accepts(pre, ev),
        transcribe_step_is(pre, ev, post, act),
    ensures
        pre.phase == TranscribePhase::AwaitingTranscript ==> remaining_calls(post) <= 2
            * post.chunks@.len(),
        pre.phase != TranscribePhase::AwaitingTranscript ==> 0 <= remaining_calls(post)
            < remaining_calls(pre),
{
}

/// A trace of a transcription: `runs[i]` takes `events[i]` and becomes `runs[i + 1]`,
/// doing `acts[i]`.
pub open spec fn is_transcription_trace(
    runs: Seq<TranscribeRun>,
    events: Seq<TranscribeEvent>,
    acts: Seq<TranscribeAction>,
) -> bool {
    &&& runs.len() == events.len() + 1
    &&& acts.len() == events.len()
    &&& forall|i: int|
        0 <= i < events.len() ==> transcribe_accepts(#[trigger] runs[i], events[i])
            && transcribe_step_is(runs[i], events[i], runs[i + 1], acts[i])
}

/// The filing requests among `acts`, in order.
pub open spec fn filings(acts: Seq<TranscribeAction>) -> Seq<AddTranscriptEmbeddingReq>
    decreases acts.len(),
{
    if acts.len() == 0 {
        Seq::empty()
    } else {
        let earlier = filings(acts.drop_last());
        match acts.last() {
            TranscribeAction::Store(req) => earlier.push(req),
            _ => earlier,
        }
    }
}

/// `req` files `chunk` with its text and timestamp under the given module and lecture.
pub open spec fn files_chunk(
    req: AddTranscriptEmbeddingReq,
    chunk: Chunk,
    module: Seq<char>,
    lecture_name: Seq<char>,
) -> bool {
    req.transcript_embedding matches Some(te) && te.raw_content@ == chunk.text@ && te.timestamp
        == chunk.timestamp && te.module@ == module && te.lecture_name@ == lecture_name
}

/// The filing `act` carries the vector that the embedding answer `ev` returned.
pub open spec fn carries_embedding(ev: TranscribeEvent, act: TranscribeAction) -> bool {
    ev matches TranscribeEvent::Embedded(Some(r)) && r.result matches Some(
        EmbeddingResult::Vector(v),
    ) && act matches TranscribeAction::Store(req) && req.transcript_embedding matches Some(te)
        && te.embedding == Some(v)
}

/// `reqs` file the first `count` chunks, in order, each with its text and timestamp and the
/// lecture's module and name.
pub open spec fn files_chunks(
    reqs: Seq<AddTranscriptEmbeddingReq>,
    chunks: Seq<Chunk>,
    module: Seq<char>,
    lecture_name: Seq<char>,
    count: int,
) -> bool {
    &&& reqs.len() == count
    &&& forall|j: int|
        0 <= j < count ==> files_chunk(#[trigger] reqs[j], chunks[j], module, lecture_name)
}

/// What has been filed by the time the run stands at `run`, after doing `last`.
pub open spec fn filed_so_far(
    run: TranscribeRun,
    last: TranscribeAction,
    filed: Seq<AddTranscriptEmbeddingReq>,
    module: Seq<char>,
    lecture_name: Seq<char>,
) -> bool {
    match run.phase {
        TranscribePhase::AwaitingTranscript => false,
        TranscribePhase::AwaitingEmbedding => files_chunks(
            filed,
            run.chunks@,
            module,
            lecture_name,
            run.next as int,
        ),
        TranscribePhase::AwaitingStore => files_chunks(
            filed,
            run.chunks@,
            module,
            lecture_name,
            run.next + 1,
        ),
        TranscribePhase::Finished => last matches TranscribeAction::Reply(Ok(_)) ==> files_chunks(
            filed,
            run.chunks@,
            module,
            lecture_name,
            run.chunks@.len() as int,
        ),
    }
}

proof fn lemma_filings_step(acts: Seq<TranscribeAction>, k: int)
    requires
        0 <= k < acts.len(),
    ensures
        filings(acts.take(k + 1)) == match acts[k] {
            TranscribeAction::Store(req) => filings(acts.take(k)).push(req),
            _ => filings(acts.take(k)),
        },
{
    assert(acts.take(k + 1).drop_last() =~= acts.take(k));
    assert(acts.take(k + 1).last() == acts[k]);
}

proof fn lemma_trace_files(
    runs: Seq<TranscribeRun>,
    events: Seq<TranscribeEvent>,
    acts: Seq<TranscribeAction>,
    k: int,
)
    requires
        is_transcription_trace(runs, events, acts),
        runs[0].phase == TranscribePhase::AwaitingTranscript,
        1 <= k <= events.len(),
    ensures
        same_lecture(runs[0], runs[k]),
        filed_so_far(runs[k], acts[k - 1], filings(acts.take(k)), runs[0].module@, runs[0].lecture_name@),
    decreases k,
{
    let i = k - 1;
    assert(transcribe_accepts(runs[i], events[i]) && transcribe_step_is(
        runs[i],
        events[i],
        runs[i + 1],
        acts[i],
    ));
    lemma_filings_step(acts, i);
    let m = runs[0].module@;
    let l = runs[0].lecture_name@;
    if k == 1 {
        assert(acts.take(0) =~= Seq::<TranscribeAction>::empty());
        assert(filings(acts.take(0)) =~= Seq::<AddTranscriptEmbeddingReq>::empty());
    } else {
        lemma_trace_files(runs, events, acts, k - 1);
        let pre = runs[i];
        let post = runs[k];
        let before = filings(acts.take(i));
        let after = filings(acts.take(k));
        match events[i] {
            TranscribeEvent::Embedded(Some(r)) => {
                if r.result matches Some(EmbeddingResult::Vector(v)) {
                    if pre.chunks@[pre.next as int].timestamp is Some {
                        assert(acts[i] is Store);
                        assert(after == before.push(acts[i]->Store_0));
                        assert forall|j: int| 0 <= j < post.next + 1 implies files_chunk(
                            #[trigger] after[j],
                            post.chunks@[j],
                            m,
                            l,
                        ) by {
                            if j < post.next {
                                assert(after[j] == before[j]);
                            }
                        }
                    }
                }
            },
            TranscribeEvent::Stored(Some(_)) => {
                assert(after == before);
            },
            _ => {},
        }
    }
}

/// A transcription that answers with success has filed every chunk of the transcript
/// exactly once, in the transcript's order, each with its own text and timestamp and with
/// the module and lecture name of the request; and each filing carries the vector that the
/// embedding service returned just before it.
pub proof fn law_successful_transcription_files_every_chunk(
    runs: Seq<TranscribeRun>,
    events: Seq<TranscribeEvent>,
    acts: Seq<TranscribeAction>,
)
    requires
        is_transcription_trace(runs, events, acts),
        runs[0].phase == TranscribePhase::AwaitingTranscript,
        events.len() >= 1,
        acts.last() matches TranscribeAction::Reply(Ok(_)),
    ensures
        files_chunks(
            filings(acts),
            runs.last().chunks@,
            runs[0].module@,
            runs[0].lecture_name@,
            runs.last().chunks@.len() as int,
        ),
        forall|k: int|
            0 <= k < acts.len() && #[trigger] acts[k] is Store ==> carries_embedding(
                events[k],
                acts[k],
            ),
{
    let n = events.len() as int;
    lemma_trace_files(runs, events, acts, n);
    assert(acts.take(n) =~= acts);
    let i = n - 1;
    assert(transcribe_accepts(runs[i], events[i]) && transcribe_step_is(
        runs[i],
        events[i],
        runs[i + 1],
        acts[i],
    ));
    assert forall|k: int|
        0 <= k < acts.len() && #[trigger] acts[k] is Store implies carries_embedding(
            events[k],
            acts[k],
        ) by {
        assert(transcribe_accepts(runs[k], events[k]) && transcribe_step_is(
            runs[k],
            events[k],
            runs[k + 1],
            acts[k],
        ));
    }
}

} // verus!

verus! {

/// A transcription waiting for an answer takes every answer of the service it called: the
/// speech-to-text answer whatever it holds, the embedding answer whatever vector (of any
/// length) or error it holds, and the filing answer whatever the store returned.
pub proof fn law_transcription_takes_every_answer(
    run: TranscribeRun,
    transcribed: Result<TranscribedRes, Status>,
    embedded: Option<NewEmbeddingRes>,
    stored: Option<crate::messages::AddTranscriptEmbeddingRes>,
)
    ensures
        run.phase == TranscribePhase::AwaitingTranscript ==> transcribe_accepts(
            run,
            TranscribeEvent::Transcribed(transcribed),
        ),
        run.phase == TranscribePhase::AwaitingEmbedding && run.next < run.chunks@.len()
            ==> transcribe_accepts(run, TranscribeEvent::Embedded(embedded)),
        run.phase == TranscribePhase::AwaitingStore && run.next < run.chunks@.len()
            ==> transcribe_accepts(run, TranscribeEvent::Stored(stored)),
        run.phase == TranscribePhase::Finished ==> !transcribe_accepts(
            run,
            TranscribeEvent::Transcribed(transcribed),
        ) && !transcribe_accepts(run, TranscribeEvent::Embedded(embedded))
            && !transcribe_accepts(run, TranscribeEvent::Stored(stored)),
{
}

/// Every step keeps a transcription ready for its next answer: a run that has not answered
/// waits in a phase where it takes every answer of the service it just called.
pub proof fn law_transcription_waits_for_what_it_asked(
    pre: TranscribeRun,
    ev: TranscribeEvent,
    post: TranscribeRun,
    act: TranscribeAction,
    embedded: Option<NewEmbeddingRes>,
    stored: Option<crate::messages::AddTranscriptEmbeddingRes>,
)
    requires
        transcribe_accepts(pre, ev),
        transcribe_step_is(pre, ev, post, act),
    ensures
        act is Embed ==> transcribe_accepts(post, TranscribeEvent::Embedded(embedded)),
        act is Store ==> transcribe_accepts(post, TranscribeEvent::Stored(stored)),
{
}

/// Filing a chunk successfully moves the transcription on: with a stored answer of any
/// content for chunk `i`, the next call embeds chunk `i + 1`, or, after the last chunk, the
/// transcription answers with success.
pub proof fn law_stored_chunk_moves_on(
    pre: TranscribeRun,
    res: crate::messages::AddTranscriptEmbeddingRes,
    post: TranscribeRun,
    act: TranscribeAction,
)
    requires
        pre.phase == TranscribePhase::AwaitingStore,
        pre.next < pre.chunks@.len(),
        transcribe_step_is(pre, TranscribeEvent::Stored(Some(res)), post, act),
    ensures
        transcribe_accepts(pre, TranscribeEvent::Stored(Some(res))),
        pre.next + 1 < pre.chunks@.len() ==> act is Embed && post.next == pre.next + 1,
        pre.next + 1 == pre.chunks@.len() ==> (act matches TranscribeAction::Reply(Ok(r))
            && r.error_message is None),
{
}

} // verus!
