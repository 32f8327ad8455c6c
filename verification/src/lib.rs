//! Request handling of a lecture retrieval system: a vector store front end,
//! a transcription pipeline and a metadata service, each modelled as plain
//! values with proved contracts.
pub mod status;
pub mod text;
pub mod messages;
pub mod payload;
pub mod store;
pub mod search;
pub mod metadata;
