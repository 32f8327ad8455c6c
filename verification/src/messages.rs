//! The messages that the services exchange. Numbers that travel as 32-bit floats are held
//! here by their bit patterns (`f32::to_bits`), which the library passes on unchanged.
use vstd::prelude::*;

verus! {

/// Where a chunk of a lecture starts and ends, in seconds; each field holds the bit
/// pattern of a 32-bit float.
#[derive(Clone, Copy, Debug, PartialEq, Eq, Structural)]
pub struct Timestamp {
    pub timestamp_start_bits: u32,
    pub timestamp_end_bits: u32,
}

/// An embedding vector; each component is the bit pattern of a 32-bit float.
pub struct VectorEmbedding {
    pub vector_data: Vec<u32>,
}

/// A chunk of a transcript together with where it stands in the lecture and, when it is
/// to be stored, its embedding.
pub struct TranscriptEmbedding {
    pub module: String,
    pub timestamp: Option<Timestamp>,
    pub raw_content: String,
    pub lecture_name: String,
    pub embedding: Option<VectorEmbedding>,
}

/// The summary of a lecture with its embedding.
pub struct SummaryEmbedding {
    pub module: String,
    pub raw_content: String,
    pub lecture_name: String,
    pub embedding: Option<VectorEmbedding>,
}

/// A request to store the embedding of a transcript chunk.
pub struct AddTranscriptEmbeddingReq {
    pub transcript_embedding: Option<TranscriptEmbedding>,
}

/// What a stored transcript chunk is known by in the vector store.
pub struct AddTranscriptEmbeddingSuccess {
    pub qdrant_point_id: String,
}

/// The answer to a request to store the embedding of a transcript chunk.
pub struct AddTranscriptEmbeddingRes {
    pub result: Option<AddTranscriptEmbeddingSuccess>,
}

/// A request to store the embedding of a lecture summary.
pub struct AddSummaryEmbeddingReq {
    pub summary_embedding: Option<SummaryEmbedding>,
}

/// A request for the stored transcript chunks closest to an embedding, within a module.
pub struct SimilaritySearchReq {
    pub embedding: Option<VectorEmbedding>,
    pub module: String,
}

/// A text to embed.
pub struct RawText {
    pub raw_content: String,
}

/// A request to the embedding service.
pub struct NewEmbeddingReq {
    pub to_embed: Option<RawText>,
}

/// What the embedding service answers: a vector or the reason it has none.
pub enum EmbeddingResult {
    Vector(VectorEmbedding),
    ErrorMsg(String),
}

/// The answer of the embedding service.
pub struct NewEmbeddingRes {
    pub result: Option<EmbeddingResult>,
}

/// A request to transcribe a lecture recording.
pub struct TranscribeReq {
    pub file_payload: Option<Vec<u8>>,
    pub lecture_name: String,
    pub module: String,
}

/// The answer to a transcription request.
pub struct TranscribeRes {
    pub error_message: Option<String>,
}

/// A piece of a transcript with where it stands in the recording.
pub struct Chunk {
    pub text: String,
    pub timestamp: Option<Timestamp>,
}

/// A transcript, cut into chunks.
pub struct Transcription {
    pub chunks: Vec<Chunk>,
}

/// The answer of the speech-to-text service.
pub struct TranscribedRes {
    pub payload: Option<Transcription>,
}

/// A module of lectures, as the metadata service hands it out.
pub struct MetadataModule {
    pub name: String,
    pub lectures: Vec<MetadataLecture>,
}

/// A lecture, as the metadata service hands it out.
pub struct MetadataLecture {
    pub name: String,
    pub lecture_id: String,
    pub summary: String,
}

/// The names of all modules.
pub struct GetModulesNamesRes {
    pub names: Vec<String>,
}

/// All modules with their lectures.
pub struct GetModulesRes {
    pub modules: Vec<MetadataModule>,
}

} // verus!
