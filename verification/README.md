# lecture_rag

Request handling of a lecture retrieval system, verified with Verus.

- `src/status.rs` – gRPC status codes and statuses.
- `src/text.rs` – decimal notation and `host:port` addresses.
- `src/messages.rs` – the messages the services exchange (floats held as bit patterns).
- `src/payload.rs` – point payloads of the vector store: building and reading them.
- `src/store.rs` – the vector store front end: filing transcript chunks and summaries,
  similarity searches.
- `src/search.rs` – the transcription pipeline: speech to text, embedding, filing.
- `src/metadata.rs` – the metadata service's answers.
- `app/` – the calls to the vector store, the database and the other services, which
  drive the functions of the library.
