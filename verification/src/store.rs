//! The vector store front end: it files transcript chunks and summaries into per-module
//! collections and answers similarity searches. The calls to the vector store are made by
//! the caller; the functions here decide what to ask and what to answer.
use vstd::prelude::*;
use crate::messages::{
    AddSummaryEmbeddingReq, AddTranscriptEmbeddingReq, AddTranscriptEmbeddingRes,
    AddTranscriptEmbeddingSuccess, SimilaritySearchReq, TranscriptEmbedding,
};
use crate::payload::{
    build_transcript_payload, extract_f32_from_payload, extract_string_from_payload,
    keys_distinct, lookup, numeric_missing_message, numeric_of, text_missing_message,
    transcript_payload_is, NumericValue, Payload, PayloadValue,
};
use crate::status::{code_description, status_is, status_text, Status, StatusCode};
use crate::text::{address, address_text};

verus! {

/// The length of the embedding vectors that a collection holds.
pub const EMBEDDING_DIMENSION: u64 = 768;

/// How many points a similarity search asks for.
pub const SEARCH_LIMIT: u64 = 5;

/// Where the store front end listens and where the vector store is.
pub struct LectureStoreServerImpl {
    host: String,
    port: u32,
    qdrant_url: String,
}

impl LectureStoreServerImpl {
    pub fn new(host: String, port: u32, qdrant_url: String) -> (server: LectureStoreServerImpl)
        ensures
            server.host() == host,
            server.port() == port,
            server.qdrant_url() == qdrant_url,
    {
        LectureStoreServerImpl { host, port, qdrant_url }
    }

    pub closed spec fn host(&self) -> String {
        self.host
    }

    pub closed spec fn port(&self) -> u32 {
        self.port
    }

    pub closed spec fn qdrant_url(&self) -> String {
        self.qdrant_url
    }

    /// The host the front end listens on.
    pub fn host_name(&self) -> (h: &String)
        ensures
            *h == self.host(),
    {
        &self.host
    }

    /// The port the front end listens on.
    pub fn port_number(&self) -> (p: u32)
        ensures
            p == self.port(),
    {
        self.port
    }

    /// The address of the vector store.
    pub fn qdrant_url_text(&self) -> (u: &String)
        ensures
            *u == self.qdrant_url(),
    {
        &self.qdrant_url
    }

    /// The socket address `host:port` that the front end listens on.
    pub fn socket_address_text(&self) -> (t: String)
        ensures
            t@ == address(self.host()@, self.port() as nat),
    {
        address_text(self.host.as_str(), self.port)
    }
}

/// The collection that holds the transcript chunks of a module.
pub open spec fn embedding_collection_name(module: Seq<char>) -> Seq<char> {
    module + "_embedding"@
}

/// The collection that holds the lecture summaries of a module.
pub open spec fn summary_collection_name(module: Seq<char>) -> Seq<char> {
    module + "_summary"@
}

/// The name of the collection of a module's transcript chunks.
pub fn embedding_collection(module: &str) -> (name: String)
    ensures
        name@ == embedding_collection_name(module@),
        name@ == module@ + "_embedding"@,
{
    let mut name = String::from_str(module);
    name.append("_embedding");
    name
}

/// The name of the collection of a module's lecture summaries.
pub fn summary_collection(module: &str) -> (name: String)
    ensures
        name@ == summary_collection_name(module@),
        name@ == module@ + "_summary"@,
{
    let mut name = String::from_str(module);
    name.append("_summary");
    name
}

/// How the vector store compares vectors.
#[derive(Clone, Copy, Debug, PartialEq, Eq, Structural)]
pub enum Distance {
    Cosine,
    Euclid,
    Dot,
    Manhattan,
}

/// A collection to create.
pub struct CollectionSpec {
    pub name: String,
    pub dimension: u64,
    pub distance: Distance,
}

/// What to do after asking whether a collection exists.
pub enum CollectionCheck {
    Ready,
    Create(CollectionSpec),
    Failed(Status),
}

/// The answer to "does the collection exist": an existing collection is used as it is, a
/// missing one is created for cosine-compared vectors of `EMBEDDING_DIMENSION`, and a
/// failed check is an internal error that carries the store's message.
pub open spec fn collection_check_is(
    name: Seq<char>,
    checked: Result<bool, String>,
    c: CollectionCheck,
) -> bool {
    match checked {
        Ok(true) => c is Ready,
        Ok(false) => c matches CollectionCheck::Create(spec) && spec.name@ == name
            && spec.dimension == EMBEDDING_DIMENSION && spec.distance == Distance::Cosine,
        Err(e) => c matches CollectionCheck::Failed(s) && status_is(
            s,
            StatusCode::Internal,
            "Failed to check if collection exists: "@ + e@,
        ),
    }
}

/// Decides what follows the question whether the collection `name` exists.
pub fn on_collection_checked(name: &str, checked: Result<bool, String>) -> (c: CollectionCheck)
    ensures
        collection_check_is(name@, checked, c),
        checked == Ok::<bool, String>(true) <==> c is Ready,
        checked == Ok::<bool, String>(false) <==> (c matches CollectionCheck::Create(spec)
            && spec.name@ == name@ && spec.dimension == 768 && spec.distance == Distance::Cosine),
        checked is Err <==> c is Failed,
{
    match checked {
        Ok(true) => CollectionCheck::Ready,
        Ok(false) => CollectionCheck::Create(
            CollectionSpec {
                name: String::from_str(name),
                dimension: EMBEDDING_DIMENSION,
                distance: Distance::Cosine,
            },
        ),
        Err(e) => {
            let mut message = String::from_str("Failed to check if collection exists: ");
            message.append(e.as_str());
            CollectionCheck::Failed(Status::new(StatusCode::Internal, message))
        },
    }
}

/// The outcome of creating a collection: a failure is an internal error that carries the
/// store's message.
pub open spec fn collection_created_is(created: Result<(), String>, r: Result<(), Status>) -> bool {
    match created {
        Ok(()) => r is Ok,
        Err(e) => r matches Err(s) && status_is(
            s,
            StatusCode::Internal,
            "Failed to create collection: "@ + e@,
        ),
    }
}

/// Decides what follows the creation of a collection.
pub fn on_collection_created(created: Result<(), String>) -> (r: Result<(), Status>)
    ensures
        collection_created_is(created, r),
        created is Ok <==> r is Ok,
{
    match created {
        Ok(()) => Ok(()),
        Err(e) => {
            let mut message = String::from_str("Failed to create collection: ");
            message.append(e.as_str());
            Err(Status::new(StatusCode::Internal, message))
        },
    }
}

/// `c` is a lower-case hexadecimal digit.
pub open spec fn is_lower_hex(c: char) -> bool {
    ('0' <= c <= '9') || ('a' <= c <= 'f')
}

/// `s` is the hyphenated lower-case text of a random (version 4, RFC 4122 variant) UUID.
pub open spec fn is_uuid_v4_text(s: Seq<char>) -> bool {
    &&& s.len() == 36
    &&& forall|i: int|
        0 <= i < 36 ==> if i == 8 || i == 13 || i == 18 || i == 23 {
            #[trigger] s[i] == '-'
        } else {
            is_lower_hex(s[i])
        }
    &&& s[14] == '4'
    &&& (s[19] == '8' || s[19] == '9' || s[19] == 'a' || s[19] == 'b')
}

/// Calls `uuid::Uuid::new_v4()` and `to_string()`. The UUID's bits come from a random
/// source, so nothing ties one result to another; what holds of every result is that the
/// version nibble is 4, the variant bits are `10`, and `Display` writes the 16 bytes as
/// 32 lower-case hex digits grouped 8-4-4-4-12 by hyphens.
#[verifier::external_body]
fn new_point_id() -> (id: String)
    ensures
        is_uuid_v4_text(id@),
{
    uuid::Uuid::new_v4().to_string()
}

/// A point to write into the vector store.
pub struct UpsertPlan {
    pub collection: String,
    pub point_id: String,
    pub vector: Vec<u32>,
    pub payload: Payload,
    pub wait: bool,
}

/// The message of a transcript chunk whose payload cannot be built for want of a
/// timestamp: the store front end reports the builder's status as text.
pub open spec fn payload_failure_text() -> Seq<char> {
    "There was an error building the payload: "@ + ("code: '"@ + code_description(3) + "', message: \""@
        + "Missing field timestamp"@ + "\""@)
}

/// Why filing the chunk `te` fails, if it does: a chunk without a timestamp is an internal
/// error, one without an embedding an invalid argument.
pub open spec fn upsert_failure(te: TranscriptEmbedding) -> Option<(StatusCode, Seq<char>)> {
    if te.timestamp is None {
        Some((StatusCode::Internal, payload_failure_text()))
    } else if te.embedding is None {
        Some(
            (
                StatusCode::InvalidArgument,
                "Field embedding missing in TranscriptEmbedding from AddTranscriptEmbeddingReq"@,
            ),
        )
    } else {
        None
    }
}

/// The write of a chunk that has a timestamp and an embedding: the point goes into the
/// module's transcript collection under `point_id`, with the chunk's vector and payload,
/// and the write is awaited.
pub open spec fn plan_is(te: TranscriptEmbedding, point_id: Seq<char>, plan: UpsertPlan) -> bool {
    &&& plan.collection@ == embedding_collection_name(te.module@)
    &&& plan.point_id@ == point_id
    &&& plan.vector@ == te.embedding.unwrap().vector_data@
    &&& transcript_payload_is(plan.payload, te, te.timestamp.unwrap())
    &&& keys_distinct(plan.payload.entries@)
    &&& plan.wait
}

/// What filing the chunk `te` under the point id `point_id` amounts to.
pub open spec fn upsert_outcome(
    te: TranscriptEmbedding,
    point_id: Seq<char>,
    r: Result<UpsertPlan, Status>,
) -> bool {
    match upsert_failure(te) {
        Some((code, message)) => r matches Err(s) && status_is(s, code, message),
        None => r matches Ok(plan) && plan_is(te, point_id, plan),
    }
}

/// Prepares the write of a transcript chunk under a given point id.
pub fn prepare_upsert(te: TranscriptEmbedding, point_id: String) -> (r: Result<UpsertPlan, Status>)
    ensures
        upsert_outcome(te, point_id@, r),
{
    let payload = match build_transcript_payload(&te) {
        Ok(p) => p,
        Err(s) => {
            proof {
                reveal_strlit("Missing field timestamp");
            }
            let detail = status_text(s.code_value(), s.message.as_str());
            let mut message = String::from_str("There was an error building the payload: ");
            message.append(detail.as_str());
            return Err(Status::new(StatusCode::Internal, message));
        },
    };
    let TranscriptEmbedding { module, timestamp, raw_content, lecture_name, embedding } = te;
    match embedding {
        None => Err(
            Status::new(
                StatusCode::InvalidArgument,
                String::from_str(
                    "Field embedding missing in TranscriptEmbedding from AddTranscriptEmbeddingReq",
                ),
            ),
        ),
        Some(v) => Ok(
            UpsertPlan {
                collection: embedding_collection(module.as_str()),
                point_id,
                vector: v.vector_data,
                payload,
                wait: true,
            },
        ),
    }
}

} // verus!

verus! {

/// Where the filing of a transcript chunk stands.
#[derive(Clone, Copy, Debug, PartialEq, Eq, Structural)]
pub enum AddTranscriptPhase {
    CheckingCollection,
    CreatingCollection,
    Upserting,
    Finished,
}

/// The filing of one transcript chunk: the collection it goes to, the chunk while the
/// collection is being made ready, and the id of the point once it is chosen.
pub struct AddTranscriptRun {
    pub phase: AddTranscriptPhase,
    pub collection: String,
    pub pending: Option<TranscriptEmbedding>,
    pub point_id: String,
}

/// What the vector store reported.
pub enum StoreEvent {
    CollectionChecked(Result<bool, String>),
    CollectionCreated(Result<(), String>),
    Upserted(Result<(), String>),
}

/// What to do next while filing a transcript chunk.
pub enum AddTranscriptAction {
    CheckCollection(String),
    CreateCollection(CollectionSpec),
    Upsert(UpsertPlan),
    Reply(Result<AddTranscriptEmbeddingRes, Status>),
}

/// The run waits for `ev`.
pub open spec fn add_transcript_accepts(run: AddTranscriptRun, ev: StoreEvent) -> bool {
    match run.phase {
        AddTranscriptPhase::CheckingCollection => ev is CollectionChecked && run.pending is Some,
        AddTranscriptPhase::CreatingCollection => ev is CollectionCreated && run.pending is Some,
        AddTranscriptPhase::Upserting => ev is Upserted,
        AddTranscriptPhase::Finished => false,
    }
}

/// How a request to file a chunk begins: without a chunk it is refused as an invalid
/// argument; with one, the module's transcript collection is checked first.
pub open spec fn add_transcript_start_is(
    req: AddTranscriptEmbeddingReq,
    run: AddTranscriptRun,
    act: AddTranscriptAction,
) -> bool {
    match req.transcript_embedding {
        None => {
            &&& run.phase == AddTranscriptPhase::Finished
            &&& act matches AddTranscriptAction::Reply(Err(s)) && status_is(
                s,
                StatusCode::InvalidArgument,
                "Field transcript_embedding is missing"@,
            )
        },
        Some(te) => {
            &&& run.phase == AddTranscriptPhase::CheckingCollection
            &&& run.collection@ == embedding_collection_name(te.module@)
            &&& run.pending == Some(te)
            &&& act matches AddTranscriptAction::CheckCollection(name) && name@ == run.collection@
        },
    }
}

/// Once the collection is ready, a fresh point id is drawn and the chunk is written under
/// it, unless it lacks a timestamp or an embedding.
pub open spec fn proceeded_is(
    pre: AddTranscriptRun,
    post: AddTranscriptRun,
    act: AddTranscriptAction,
) -> bool {
    &&& pre.pending matches Some(te)
    &&& post.collection == pre.collection
    &&& post.pending is None
    &&& is_uuid_v4_text(post.point_id@)
    &&& match upsert_failure(te) {
        Some((code, message)) => {
            &&& post.phase == AddTranscriptPhase::Finished
            &&& act matches AddTranscriptAction::Reply(Err(s)) && status_is(s, code, message)
        },
        None => {
            &&& post.phase == AddTranscriptPhase::Upserting
            &&& act matches AddTranscriptAction::Upsert(plan) && plan_is(te, post.point_id@, plan)
        },
    }
}

/// The run ends with `act`, which answers with an error of the given code and message.
pub open spec fn failed_is(
    pre: AddTranscriptRun,
    post: AddTranscriptRun,
    act: AddTranscriptAction,
    code: StatusCode,
    message: Seq<char>,
) -> bool {
    &&& post.phase == AddTranscriptPhase::Finished
    &&& post.collection == pre.collection
    &&& post.pending is None
    &&& post.point_id == pre.point_id
    &&& act matches AddTranscriptAction::Reply(Err(s)) && status_is(s, code, message)
}

/// One step of filing a chunk: what the vector store reported decides the next request
/// or the answer.
pub open spec fn add_transcript_step_is(
    pre: AddTranscriptRun,
    ev: StoreEvent,
    post: AddTranscriptRun,
    act: AddTranscriptAction,
) -> bool {
    match ev {
        StoreEvent::CollectionChecked(Ok(true)) => proceeded_is(pre, post, act),
        StoreEvent::CollectionChecked(Ok(false)) => {
            &&& post.phase == AddTranscriptPhase::CreatingCollection
            &&& post.collection == pre.collection
            &&& post.pending == pre.pending
            &&& post.point_id == pre.point_id
            &&& act matches AddTranscriptAction::CreateCollection(spec) && spec.name@
                == pre.collection@ && spec.dimension == EMBEDDING_DIMENSION && spec.distance
                == Distance::Cosine
        },
        StoreEvent::CollectionChecked(Err(e)) => failed_is(
            pre,
            post,
            act,
            StatusCode::Internal,
            "Failed to check if collection exists: "@ + e@,
        ),
        StoreEvent::CollectionCreated(Ok(())) => proceeded_is(pre, post, act),
        StoreEvent::CollectionCreated(Err(e)) => failed_is(
            pre,
            post,
            act,
            StatusCode::Internal,
            "Failed to create collection: "@ + e@,
        ),
        StoreEvent::Upserted(Ok(())) => {
            &&& post.phase == AddTranscriptPhase::Finished
            &&& post.collection == pre.collection
            &&& post.pending is None
            &&& post.point_id == pre.point_id
            &&& act matches AddTranscriptAction::Reply(Ok(res)) && res.result matches Some(
                success,
            ) && success.qdrant_point_id@ == pre.point_id@
        },
        StoreEvent::Upserted(Err(e)) => failed_is(
            pre,
            post,
            act,
            StatusCode::Internal,
            "Failed to upsert points: "@ + e@,
        ),
    }
}

fn finished(collection: String, point_id: String, status: Status) -> (r: (
    AddTranscriptRun,
    AddTranscriptAction,
))
    ensures
        r.0.phase == AddTranscriptPhase::Finished,
        r.0.collection == collection,
        r.0.pending is None,
        r.0.point_id == point_id,
        r.1 == AddTranscriptAction::Reply(Err(status)),
{
    (
        AddTranscriptRun {
            phase: AddTranscriptPhase::Finished,
            collection,
            pending: None,
            point_id,
        },
        AddTranscriptAction::Reply(Err(status)),
    )
}

impl AddTranscriptRun {
    /// Begins filing the chunk of `req`.
    pub fn start(req: AddTranscriptEmbeddingReq) -> (r: (AddTranscriptRun, AddTranscriptAction))
        ensures
            add_transcript_start_is(req, r.0, r.1),
            req.transcript_embedding is Some <==> (r.0.phase == AddTranscriptPhase::CheckingCollection
                && r.0.pending is Some),
            req.transcript_embedding matches Some(te) ==> r.0.collection@ == te.module@ + "_embedding"@,
    {
        match req.transcript_embedding {
            None => finished(
                String::new(),
                String::new(),
                Status::new(
                    StatusCode::InvalidArgument,
                    String::from_str("Field transcript_embedding is missing"),
                ),
            ),
            Some(te) => {
                let collection = embedding_collection(te.module.as_str());
                let name = collection.clone();
                (
                    AddTranscriptRun {
                        phase: AddTranscriptPhase::CheckingCollection,
                        collection,
                        pending: Some(te),
                        point_id: String::new(),
                    },
                    AddTranscriptAction::CheckCollection(name),
                )
            },
        }
    }

    /// Whether the run waits for `ev`.
    pub fn accepts(&self, ev: &StoreEvent) -> (b: bool)
        ensures
            b == add_transcript_accepts(*self, *ev),
            self.phase == AddTranscriptPhase::CheckingCollection && self.pending is Some
                && ev is CollectionChecked ==> b,
            self.phase == AddTranscriptPhase::CreatingCollection && self.pending is Some
                && ev is CollectionCreated ==> b,
            self.phase == AddTranscriptPhase::Upserting && ev is Upserted ==> b,
            self.phase == AddTranscriptPhase::Finished ==> !b,
    {
        match self.phase {
            AddTranscriptPhase::CheckingCollection => match ev {
                StoreEvent::CollectionChecked(_) => self.pending.is_some(),
                _ => false,
            },
            AddTranscriptPhase::CreatingCollection => match ev {
                StoreEvent::CollectionCreated(_) => self.pending.is_some(),
                _ => false,
            },
            AddTranscriptPhase::Upserting => match ev {
                StoreEvent::Upserted(_) => true,
                _ => false,
            },
            AddTranscriptPhase::Finished => false,
        }
    }

    fn proceed(collection: String, te: TranscriptEmbedding) -> (r: (
        AddTranscriptRun,
        AddTranscriptAction,
    ))
        ensures
            proceeded_is(
                AddTranscriptRun {
                    phase: AddTranscriptPhase::CheckingCollection,
                    collection,
                    pending: Some(te),
                    point_id: r.0.point_id,
                },
                r.0,
                r.1,
            ),
    {
        let point_id = new_point_id();
        let id = point_id.clone();
        match prepare_upsert(te, id) {
            Ok(plan) => (
                AddTranscriptRun {
                    phase: AddTranscriptPhase::Upserting,
                    collection,
                    pending: None,
                    point_id,
                },
                AddTranscriptAction::Upsert(plan),
            ),
            Err(s) => finished(collection, point_id, s),
        }
    }

    /// Takes what the vector store reported and decides the next request or the answer.
    pub fn step(self, ev: StoreEvent) -> (r: (AddTranscriptRun, AddTranscriptAction))
        requires
            add_transcript_accepts(self, ev),
        ensures
            add_transcript_step_is(self, ev, r.0, r.1),
    {
        let AddTranscriptRun { phase: _, collection, pending, point_id } = self;
        match ev {
            StoreEvent::CollectionChecked(checked) => {
                let te = pending.unwrap();
                match on_collection_checked(collection.as_str(), checked) {
                    CollectionCheck::Ready => {
                        let r = Self::proceed(collection, te);
                        r
                    },
                    CollectionCheck::Create(spec) => (
                        AddTranscriptRun {
                            phase: AddTranscriptPhase::CreatingCollection,
                            collection,
                            pending: Some(te),
                            point_id,
                        },
                        AddTranscriptAction::CreateCollection(spec),
                    ),
                    CollectionCheck::Failed(s) => finished(collection, point_id, s),
                }
            },
            StoreEvent::CollectionCreated(created) => {
                let te = pending.unwrap();
                match on_collection_created(created) {
                    Ok(()) => Self::proceed(collection, te),
                    Err(s) => finished(collection, point_id, s),
                }
            },
            StoreEvent::Upserted(Ok(())) => {
                let answered = point_id.clone();
                (
                    AddTranscriptRun {
                        phase: AddTranscriptPhase::Finished,
                        collection,
                        pending: None,
                        point_id,
                    },
                    AddTranscriptAction::Reply(
                        Ok(
                            AddTranscriptEmbeddingRes {
                                result: Some(
                                    AddTranscriptEmbeddingSuccess { qdrant_point_id: answered },
                                ),
                            },
                        ),
                    ),
                )
            },
            StoreEvent::Upserted(Err(e)) => {
                let mut message = String::from_str("Failed to upsert points: ");
                message.append(e.as_str());
                finished(collection, point_id, Status::new(StatusCode::Internal, message))
            },
        }
    }
}

} // verus!

verus! {

/// Where the filing of a lecture summary stands.
#[derive(Clone, Copy, Debug, PartialEq, Eq, Structural)]
pub enum AddSummaryPhase {
    CheckingCollection,
    CreatingCollection,
    Finished,
}

/// The filing of a lecture summary.
pub struct AddSummaryRun {
    pub phase: AddSummaryPhase,
    pub collection: String,
    pub lecture_name: String,
}

/// What to do next while filing a lecture summary. Writing summaries is not offered yet:
/// once the collection is ready, the lecture's name is printed and the request is answered
/// as unimplemented.
pub enum AddSummaryAction {
    CheckCollection(String),
    CreateCollection(CollectionSpec),
    Reply(Status),
    PrintAndReply(String, Status),
}

/// The run waits for `ev`.
pub open spec fn add_summary_accepts(run: AddSummaryRun, ev: StoreEvent) -> bool {
    match run.phase {
        AddSummaryPhase::CheckingCollection => ev is CollectionChecked,
        AddSummaryPhase::CreatingCollection => ev is CollectionCreated,
        AddSummaryPhase::Finished => false,
    }
}

/// How a request to file a summary begins: without a summary it is refused as an invalid
/// argument; with one, the module's summary collection is checked first.
pub open spec fn add_summary_start_is(
    req: AddSummaryEmbeddingReq,
    run: AddSummaryRun,
    act: AddSummaryAction,
) -> bool {
    match req.summary_embedding {
        None => {
            &&& run.phase == AddSummaryPhase::Finished
            &&& act matches AddSummaryAction::Reply(s) && status_is(
                s,
                StatusCode::InvalidArgument,
                "Missing summary_embedding field"@,
            )
        },
        Some(se) => {
            &&& run.phase == AddSummaryPhase::CheckingCollection
            &&& run.collection@ == summary_collection_name(se.module@)
            &&& run.lecture_name@ == se.lecture_name@
            &&& act matches AddSummaryAction::CheckCollection(name) && name@ == run.collection@
        },
    }
}

/// Once the collection is ready, the lecture's name is printed and the request is answered
/// as not implemented yet.
pub open spec fn summary_ready_is(pre: AddSummaryRun, post: AddSummaryRun, act: AddSummaryAction) -> bool {
    &&& post.phase == AddSummaryPhase::Finished
    &&& post.collection == pre.collection
    &&& post.lecture_name == pre.lecture_name
    &&& act matches AddSummaryAction::PrintAndReply(name, s) && name@ == pre.lecture_name@
        && status_is(s, StatusCode::Unimplemented, "Not implemented yet"@)
}

/// The run ends answering with an error of the given code and message.
pub open spec fn summary_failed_is(
    pre: AddSummaryRun,
    post: AddSummaryRun,
    act: AddSummaryAction,
    code: StatusCode,
    message: Seq<char>,
) -> bool {
    &&& post.phase == AddSummaryPhase::Finished
    &&& post.collection == pre.collection
    &&& post.lecture_name == pre.lecture_name
    &&& act matches AddSummaryAction::Reply(s) && status_is(s, code, message)
}

/// One step of filing a summary.
pub open spec fn add_summary_step_is(
    pre: AddSummaryRun,
    ev: StoreEvent,
    post: AddSummaryRun,
    act: AddSummaryAction,
) -> bool {
    match ev {
        StoreEvent::CollectionChecked(Ok(true)) => summary_ready_is(pre, post, act),
        StoreEvent::CollectionChecked(Ok(false)) => {
            &&& post.phase == AddSummaryPhase::CreatingCollection
            &&& post.collection == pre.collection
            &&& post.lecture_name == pre.lecture_name
            &&& act matches AddSummaryAction::CreateCollection(spec) && spec.name@
                == pre.collection@ && spec.dimension == EMBEDDING_DIMENSION && spec.distance
                == Distance::Cosine
        },
        StoreEvent::CollectionChecked(Err(e)) => summary_failed_is(
            pre,
            post,
            act,
            StatusCode::Internal,
            "Failed to check if collection exists: "@ + e@,
        ),
        StoreEvent::CollectionCreated(Ok(())) => summary_ready_is(pre, post, act),
        StoreEvent::CollectionCreated(Err(e)) => summary_failed_is(
            pre,
            post,
            act,
            StatusCode::Internal,
            "Failed to create collection: "@ + e@,
        ),
        StoreEvent::Upserted(_) => false,
    }
}

impl AddSummaryRun {
    /// Begins filing the summary of `req`.
    pub fn start(req: AddSummaryEmbeddingReq) -> (r: (AddSummaryRun, AddSummaryAction))
        ensures
            add_summary_start_is(req, r.0, r.1),
            req.summary_embedding is Some <==> r.0.phase == AddSummaryPhase::CheckingCollection,
            req.summary_embedding matches Some(se) ==> r.0.collection@ == se.module@ + "_summary"@,
    {
        match req.summary_embedding {
            None => (
                AddSummaryRun {
                    phase: AddSummaryPhase::Finished,
                    collection: String::new(),
                    lecture_name: String::new(),
                },
                AddSummaryAction::Reply(
                    Status::new(
                        StatusCode::InvalidArgument,
                        String::from_str("Missing summary_embedding field"),
                    ),
                ),
            ),
            Some(se) => {
                let collection = summary_collection(se.module.as_str());
                let name = collection.clone();
                (
                    AddSummaryRun {
                        phase: AddSummaryPhase::CheckingCollection,
                        collection,
                        lecture_name: se.lecture_name,
                    },
                    AddSummaryAction::CheckCollection(name),
                )
            },
        }
    }

    /// Whether the run waits for `ev`.
    pub fn accepts(&self, ev: &StoreEvent) -> (b: bool)
        ensures
            b == add_summary_accepts(*self, *ev),
            self.phase == AddSummaryPhase::CheckingCollection && ev is CollectionChecked ==> b,
            self.phase == AddSummaryPhase::CreatingCollection && ev is CollectionCreated ==> b,
            self.phase == AddSummaryPhase::Finished ==> !b,
    {
        match self.phase {
            AddSummaryPhase::CheckingCollection => match ev {
                StoreEvent::CollectionChecked(_) => true,
                _ => false,
            },
            AddSummaryPhase::CreatingCollection => match ev {
                StoreEvent::CollectionCreated(_) => true,
                _ => false,
            },
            AddSummaryPhase::Finished => false,
        }
    }

    fn ready(collection: String, lecture_name: String) -> (r: (AddSummaryRun, AddSummaryAction))
        ensures
            r.0.phase == AddSummaryPhase::Finished,
            r.0.collection == collection,
            r.0.lecture_name == lecture_name,
            r.1 matches AddSummaryAction::PrintAndReply(name, s) && name@ == lecture_name@
                && status_is(s, StatusCode::Unimplemented, "Not implemented yet"@),
    {
        let printed = lecture_name.clone();
        (
            AddSummaryRun { phase: AddSummaryPhase::Finished, collection, lecture_name },
            AddSummaryAction::PrintAndReply(
                printed,
                Status::new(StatusCode::Unimplemented, String::from_str("Not implemented yet")),
            ),
        )
    }

    /// Takes what the vector store reported and decides the next request or the answer.
    pub fn step(self, ev: StoreEvent) -> (r: (AddSummaryRun, AddSummaryAction))
        requires
            add_summary_accepts(self, ev),
        ensures
            add_summary_step_is(self, ev, r.0, r.1),
    {
        let AddSummaryRun { phase: _, collection, lecture_name } = self;
        match ev {
            StoreEvent::CollectionChecked(checked) => {
                match on_collection_checked(collection.as_str(), checked) {
                    CollectionCheck::Ready => Self::ready(collection, lecture_name),
                    CollectionCheck::Create(spec) => (
                        AddSummaryRun {
                            phase: AddSummaryPhase::CreatingCollection,
                            collection,
                            lecture_name,
                        },
                        AddSummaryAction::CreateCollection(spec),
                    ),
                    CollectionCheck::Failed(s) => (
                        AddSummaryRun { phase: AddSummaryPhase::Finished, collection, lecture_name },
                        AddSummaryAction::Reply(s),
                    ),
                }
            },
            StoreEvent::CollectionCreated(created) => match on_collection_created(created) {
                Ok(()) => Self::ready(collection, lecture_name),
                Err(s) => (
                    AddSummaryRun { phase: AddSummaryPhase::Finished, collection, lecture_name },
                    AddSummaryAction::Reply(s),
                ),
            },
            StoreEvent::Upserted(_) => {
                // not accepted in any phase of a summary run
                proof {
                    assert(false);
                }
                (
                    AddSummaryRun { phase: AddSummaryPhase::Finished, collection, lecture_name },
                    AddSummaryAction::Reply(Status::new(StatusCode::Internal, String::new())),
                )
            },
        }
    }
}

/// A similarity search to run against the vector store.
pub struct QueryPlan {
    pub collection: String,
    pub vector: Vec<u32>,
    pub limit: u64,
    pub with_payload: bool,
    pub with_vectors: bool,
}

/// The search that a request asks for: the nearest points to its embedding in the module's
/// transcript collection, at most `SEARCH_LIMIT` of them, with payloads and vectors; a
/// request without an embedding is refused as an invalid argument.
pub open spec fn query_plan_is(req: SimilaritySearchReq, r: Result<QueryPlan, Status>) -> bool {
    match req.embedding {
        None => r matches Err(s) && status_is(
            s,
            StatusCode::InvalidArgument,
            "Field embedding is missing in request for similarity search"@,
        ),
        Some(v) => r matches Ok(plan) && plan.collection@ == embedding_collection_name(
            req.module@,
        ) && plan.vector@ == v.vector_data@ && plan.limit == SEARCH_LIMIT && plan.with_payload
            && plan.with_vectors,
    }
}

/// Turns a similarity search request into the search to run.
pub fn similarity_search_plan(req: SimilaritySearchReq) -> (r: Result<QueryPlan, Status>)
    ensures
        query_plan_is(req, r),
        req.embedding is Some <==> r is Ok,
        r matches Ok(plan) ==> plan.collection@ == req.module@ + "_embedding"@ && plan.limit == 5,
{
    let SimilaritySearchReq { embedding, module } = req;
    match embedding {
        None => Err(
            Status::new(
                StatusCode::InvalidArgument,
                String::from_str("Field embedding is missing in request for similarity search"),
            ),
        ),
        Some(v) => Ok(
            QueryPlan {
                collection: embedding_collection(module.as_str()),
                vector: v.vector_data,
                limit: SEARCH_LIMIT,
                with_payload: true,
                with_vectors: true,
            },
        ),
    }
}

/// A transcript chunk found by a similarity search; the start and end are the numbers read
/// from the point's payload.
pub struct SearchHit {
    pub module: String,
    pub timestamp_start: NumericValue,
    pub timestamp_end: NumericValue,
    pub raw_content: String,
    pub lecture_name: String,
}

/// Why a found point cannot be turned into a chunk, if it cannot: the first of its fields,
/// in the order start, end, text, lecture name, that is missing or of the wrong kind.
pub open spec fn point_failure(p: Payload) -> Option<Seq<char>> {
    if numeric_of(lookup(p.entries@, "timestamp_start"@)) is None {
        Some(numeric_missing_message("timestamp_start"@))
    } else if numeric_of(lookup(p.entries@, "timestamp_end"@)) is None {
        Some(numeric_missing_message("timestamp_end"@))
    } else if !(lookup(p.entries@, "raw_content"@) matches Some(PayloadValue::Text(_))) {
        Some(text_missing_message("raw_content"@))
    } else if !(lookup(p.entries@, "lecture_name"@) matches Some(PayloadValue::Text(_))) {
        Some(text_missing_message("lecture_name"@))
    } else {
        None
    }
}

/// `hit` is the chunk that the point with payload `p` holds, in `module`.
pub open spec fn hit_is(hit: SearchHit, module: Seq<char>, p: Payload) -> bool {
    &&& hit.module@ == module
    &&& numeric_of(lookup(p.entries@, "timestamp_start"@)) == Some(hit.timestamp_start)
    &&& numeric_of(lookup(p.entries@, "timestamp_end"@)) == Some(hit.timestamp_end)
    &&& lookup(p.entries@, "raw_content"@) matches Some(PayloadValue::Text(t)) && t@
        == hit.raw_content@
    &&& lookup(p.entries@, "lecture_name"@) matches Some(PayloadValue::Text(t)) && t@
        == hit.lecture_name@
}

/// The answer to a similarity search whose store query gave `points`: the chunk of every
/// point, in the order found, or the error of the first point that holds no chunk.
pub open spec fn search_hits_is(module: Seq<char>, points: Seq<Payload>, r: Result<
    Vec<SearchHit>,
    Status,
>) -> bool {
    match r {
        Ok(hits) => {
            &&& hits@.len() == points.len()
            &&& forall|i: int| 0 <= i < points.len() ==> hit_is(#[trigger] hits@[i], module, points[i])
        },
        Err(s) => exists|i: int|
            0 <= i < points.len() && (forall|j: int| 0 <= j < i ==> #[trigger] point_failure(points[j]) is None)
                && #[trigger] point_failure(points[i]) == Some(s.message@) && s.code
                == StatusCode::Internal,
    }
}

fn hit_of(module: &String, point: &Payload) -> (r: Result<SearchHit, Status>)
    ensures
        match point_failure(*point) {
            None => r matches Ok(hit) && hit_is(hit, module@, *point),
            Some(m) => r matches Err(s) && status_is(s, StatusCode::Internal, m),
        },
{
    let timestamp_start = match extract_f32_from_payload(point, "timestamp_start") {
        Ok(n) => n,
        Err(s) => return Err(s),
    };
    let timestamp_end = match extract_f32_from_payload(point, "timestamp_end") {
        Ok(n) => n,
        Err(s) => return Err(s),
    };
    let raw_content = match extract_string_from_payload(point, "raw_content") {
        Ok(t) => t,
        Err(s) => return Err(s),
    };
    let lecture_name = match extract_string_from_payload(point, "lecture_name") {
        Ok(t) => t,
        Err(s) => return Err(s),
    };
    Ok(SearchHit { module: module.clone(), timestamp_start, timestamp_end, raw_content, lecture_name })
}

/// The answer to a similarity search, given what the store query returned: a failed query
/// is an internal error that carries the store's message; otherwise the chunks of the
/// found points, in the order found.
pub fn similarity_search_results(module: &String, queried: Result<Vec<Payload>, String>) -> (r: Result<
    Vec<SearchHit>,
    Status,
>)
    ensures
        match queried {
            Err(e) => r matches Err(s) && status_is(
                s,
                StatusCode::Internal,
                "Similarity search failed: "@ + e@,
            ),
            Ok(points) => search_hits_is(module@, points@, r),
        },
{
    let points = match queried {
        Err(e) => {
            let mut message = String::from_str("Similarity search failed: ");
            message.append(e.as_str());
            return Err(Status::new(StatusCode::Internal, message));
        },
        Ok(points) => points,
    };
    let mut hits: Vec<SearchHit> = Vec::new();
    let mut i: usize = 0;
    while i < points.len()
        invariant
            i <= points@.len(),
            queried matches Ok(p) && p == points,
            hits@.len() == i,
            forall|j: int| 0 <= j < i ==> hit_is(#[trigger] hits@[j], module@, points@[j]),
            forall|j: int| 0 <= j < i ==> #[trigger] point_failure(points@[j]) is None,
        decreases points@.len() - i,
    {
        match hit_of(module, &points[i]) {
            Ok(hit) => {
                hits.push(hit);
            },
            Err(s) => {
                assert(point_failure(points@[i as int]) == Some(s.message@));
                return Err(s);
            },
        }
        i = i + 1;
    }
    Ok(hits)
}

} // verus!

verus! {

/// The point id that a successful filing answers with is the id under which the chunk was
/// written, and it is the text of a random UUID.
pub proof fn law_answered_id_is_written_id(
    r0: AddTranscriptRun,
    e0: StoreEvent,
    r1: AddTranscriptRun,
    a0: AddTranscriptAction,
    e1: StoreEvent,
    r2: AddTranscriptRun,
    a1: AddTranscriptAction,
)
    requires
        add_transcript_accepts(r0, e0),
        add_transcript_step_is(r0, e0, r1, a0),
        add_transcript_accepts(r1, e1),
        add_transcript_step_is(r1, e1, r2, a1),
        a0 is Upsert,
        a1 matches AddTranscriptAction::Reply(Ok(_)),
    ensures
        a0 matches AddTranscriptAction::Upsert(plan) && a1 matches AddTranscriptAction::Reply(
            Ok(res),
        ) && res.result matches Some(success) && success.qdrant_point_id@ == plan.point_id@
            && is_uuid_v4_text(plan.point_id@),
{
}

/// A run answers exactly once: a step that answers ends the run, which then waits for no
/// further report, and a step that does not answer leaves the run waiting for one.
pub proof fn law_transcript_run_answers_once(
    pre: AddTranscriptRun,
    ev: StoreEvent,
    post: AddTranscriptRun,
    act: AddTranscriptAction,
)
    requires
        add_transcript_accepts(pre, ev),
        add_transcript_step_is(pre, ev, post, act),
    ensures
        act is Reply <==> post.phase == AddTranscriptPhase::Finished,
        act is Reply ==> forall|next: StoreEvent| !add_transcript_accepts(post, next),
        !(act is Reply) ==> exists|next: StoreEvent| add_transcript_accepts(post, next),
{
    if !(act is Reply) {
        match post.phase {
            AddTranscriptPhase::CreatingCollection => {
                assert(add_transcript_accepts(post, StoreEvent::CollectionCreated(Ok(()))));
            },
            _ => {
                assert(add_transcript_accepts(post, StoreEvent::Upserted(Ok(()))));
            },
        }
    }
}

/// A chunk written by a filing is found again by a similarity search on the same module:
/// the search queries the collection the chunk was written to.
pub proof fn law_search_reads_written_collection(
    te: TranscriptEmbedding,
    point_id: Seq<char>,
    plan: UpsertPlan,
    req: SimilaritySearchReq,
    query: Result<QueryPlan, Status>,
)
    requires
        plan_is(te, point_id, plan),
        query_plan_is(req, query),
        req.module@ == te.module@,
        req.embedding is Some,
    ensures
        query matches Ok(q) && q.collection@ == plan.collection@,
{
}

/// What a similarity search reads from a written point is what was written: the point
/// holds a chunk, and the chunk's start, end, text and lecture name are those of the filed
/// chunk.
pub proof fn law_search_reads_back_written_chunk(
    te: TranscriptEmbedding,
    point_id: Seq<char>,
    plan: UpsertPlan,
    module: Seq<char>,
    hit: SearchHit,
)
    requires
        plan_is(te, point_id, plan),
        upsert_failure(te) is None,
    ensures
        point_failure(plan.payload) is None,
        hit_is(hit, module, plan.payload) ==> {
            &&& hit.timestamp_start == NumericValue::Single(te.timestamp.unwrap().timestamp_start_bits)
            &&& hit.timestamp_end == NumericValue::Single(te.timestamp.unwrap().timestamp_end_bits)
            &&& hit.raw_content@ == te.raw_content@
            &&& hit.lecture_name@ == te.lecture_name@
        },
{
    crate::payload::law_transcript_payload_reads_back(plan.payload, te, te.timestamp.unwrap());
}

/// Filing a summary never succeeds yet: every answer of a summary run is an error, and a
/// run that reaches a ready collection answers that the operation is not implemented.
pub proof fn law_summary_never_succeeds(
    pre: AddSummaryRun,
    ev: StoreEvent,
    post: AddSummaryRun,
    act: AddSummaryAction,
)
    requires
        add_summary_accepts(pre, ev),
        add_summary_step_is(pre, ev, post, act),
    ensures
        act matches AddSummaryAction::Reply(s) ==> s.code != StatusCode::Succeeded,
        act matches AddSummaryAction::PrintAndReply(_, s) ==> s.code == StatusCode::Unimplemented,
        (act is Reply || act is PrintAndReply) <==> post.phase == AddSummaryPhase::Finished,
{
}

} // verus!

verus! {

proof fn lemma_suffix_cancels(a: Seq<char>, b: Seq<char>, suffix: Seq<char>)
    requires
        a + suffix == b + suffix,
    ensures
        a == b,
{
    assert((a + suffix).len() == a.len() + suffix.len());
    assert((b + suffix).len() == b.len() + suffix.len());
    assert(a.len() == b.len());
    assert((a + suffix).subrange(0, a.len() as int) =~= a);
    assert((b + suffix).subrange(0, b.len() as int) =~= b);
}

/// A module's transcript collection is its whole name followed by `_embedding`, and a
/// module's summary collection its whole name followed by `_summary`: distinct modules never
/// share a collection, and no transcript collection is a summary collection.
pub proof fn law_collections_are_per_module(m1: Seq<char>, m2: Seq<char>)
    ensures
        embedding_collection_name(m1) == m1 + "_embedding"@,
        summary_collection_name(m1) == m1 + "_summary"@,
        embedding_collection_name(m1).len() == m1.len() + 10,
        embedding_collection_name(m1).subrange(0, m1.len() as int) == m1,
        m1 != m2 ==> embedding_collection_name(m1) != embedding_collection_name(m2),
        m1 != m2 ==> summary_collection_name(m1) != summary_collection_name(m2),
        embedding_collection_name(m1) != summary_collection_name(m2),
{
    reveal_strlit("_embedding");
    reveal_strlit("_summary");
    assert(embedding_collection_name(m1).subrange(0, m1.len() as int) =~= m1);
    if embedding_collection_name(m1) == embedding_collection_name(m2) {
        lemma_suffix_cancels(m1, m2, "_embedding"@);
    }
    if summary_collection_name(m1) == summary_collection_name(m2) {
        lemma_suffix_cancels(m1, m2, "_summary"@);
    }
    let e = embedding_collection_name(m1);
    let t = summary_collection_name(m2);
    assert(e[e.len() - 1] == 'g');
    assert(t[t.len() - 1] == 'y');
}

/// A filing that is checking its collection takes every answer to "does the collection
/// exist": that it does, that it does not, and that the check failed; one that is creating
/// the collection takes every outcome of the creation; one that is writing the point takes
/// every outcome of the write. A finished filing takes nothing.
pub proof fn law_transcript_run_takes_every_report(
    run: AddTranscriptRun,
    checked: Result<bool, String>,
    created: Result<(), String>,
    upserted: Result<(), String>,
)
    ensures
        run.phase == AddTranscriptPhase::CheckingCollection && run.pending is Some
            ==> add_transcript_accepts(run, StoreEvent::CollectionChecked(checked)),
        run.phase == AddTranscriptPhase::CreatingCollection && run.pending is Some
            ==> add_transcript_accepts(run, StoreEvent::CollectionCreated(created)),
        run.phase == AddTranscriptPhase::Upserting ==> add_transcript_accepts(
            run,
            StoreEvent::Upserted(upserted),
        ),
        run.phase == AddTranscriptPhase::Finished ==> !add_transcript_accepts(
            run,
            StoreEvent::CollectionChecked(checked),
        ) && !add_transcript_accepts(run, StoreEvent::CollectionCreated(created))
            && !add_transcript_accepts(run, StoreEvent::Upserted(upserted)),
{
}

/// A filing whose collection is missing goes on to create it, and after the creation goes
/// on to write the chunk (or to refuse a chunk without timestamp or embedding); it never
/// answers before the collection is made ready.
pub proof fn law_missing_collection_is_created(
    run: AddTranscriptRun,
    post: AddTranscriptRun,
    act: AddTranscriptAction,
    post2: AddTranscriptRun,
    act2: AddTranscriptAction,
)
    requires
        run.phase == AddTranscriptPhase::CheckingCollection,
        run.pending is Some,
        add_transcript_step_is(run, StoreEvent::CollectionChecked(Ok(false)), post, act),
        add_transcript_step_is(post, StoreEvent::CollectionCreated(Ok(())), post2, act2),
    ensures
        add_transcript_accepts(run, StoreEvent::CollectionChecked(Ok(false))),
        act matches AddTranscriptAction::CreateCollection(spec) && spec.name@ == run.collection@
            && spec.dimension == 768 && spec.distance == Distance::Cosine,
        add_transcript_accepts(post, StoreEvent::CollectionCreated(Ok(()))),
        upsert_failure(run.pending.unwrap()) is None ==> (act2 matches AddTranscriptAction::Upsert(
            plan,
        ) && plan.collection@ == run.pending.unwrap().module@ + "_embedding"@),
{
}

/// A summary filing that is checking its collection takes every answer to "does the
/// collection exist", and one creating it every outcome of the creation; a missing
/// collection is created, and then the lecture's name is printed and the request answered
/// as not implemented.
pub proof fn law_summary_run_takes_every_report(
    run: AddSummaryRun,
    checked: Result<bool, String>,
    created: Result<(), String>,
    post: AddSummaryRun,
    act: AddSummaryAction,
    post2: AddSummaryRun,
    act2: AddSummaryAction,
)
    requires
        add_summary_step_is(run, StoreEvent::CollectionChecked(Ok(false)), post, act),
        add_summary_step_is(post, StoreEvent::CollectionCreated(Ok(())), post2, act2),
    ensures
        run.phase == AddSummaryPhase::CheckingCollection ==> add_summary_accepts(
            run,
            StoreEvent::CollectionChecked(checked),
        ),
        run.phase == AddSummaryPhase::CreatingCollection ==> add_summary_accepts(
            run,
            StoreEvent::CollectionCreated(created),
        ),
        run.phase == AddSummaryPhase::CheckingCollection ==> {
            &&& act matches AddSummaryAction::CreateCollection(spec) && spec.name@ == run.collection@
                && spec.dimension == 768 && spec.distance == Distance::Cosine
            &&& add_summary_accepts(post, StoreEvent::CollectionCreated(Ok(())))
            &&& act2 matches AddSummaryAction::PrintAndReply(name, s) && name@ == run.lecture_name@
                && s.code == StatusCode::Unimplemented
        },
{
}

} // verus!
