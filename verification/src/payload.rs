//! The payload that the vector store keeps beside each point: named values.
use vstd::prelude::*;
use crate::messages::{SummaryEmbedding, TranscriptEmbedding};
use crate::status::{status_is, Status, StatusCode};

verus! {

/// A value in a point's payload, after the kinds of values that the vector store knows.
/// `Double` holds the bit pattern of a 64-bit float. `Single` holds the bit pattern of a
/// 32-bit float handed to the store, which keeps it as a 64-bit float of the same value.
pub enum PayloadValue {
    Missing,
    Null,
    Double(u64),
    Single(u32),
    Integer(i64),
    Text(String),
    Bool(bool),
    Structured,
    List,
}

/// A number read from a payload; floats are held by their bit patterns.
#[derive(Clone, Copy, Debug, PartialEq, Eq, Structural)]
pub enum NumericValue {
    Single(u32),
    Double(u64),
    Integer(i64),
}

/// One named value of a payload.
pub struct PayloadEntry {
    pub key: String,
    pub value: PayloadValue,
}

/// The named values kept beside a point. A payload that comes from the store has each
/// name once; a lookup takes the first entry with the name.
pub struct Payload {
    pub entries: Vec<PayloadEntry>,
}

/// The value of the first entry named `key`, if there is one.
pub open spec fn lookup(entries: Seq<PayloadEntry>, key: Seq<char>) -> Option<PayloadValue>
    decreases entries.len(),
{
    if entries.len() == 0 {
        None
    } else if entries[0].key@ == key {
        Some(entries[0].value)
    } else {
        lookup(entries.drop_first(), key)
    }
}

/// No name occurs twice.
pub open spec fn keys_distinct(entries: Seq<PayloadEntry>) -> bool {
    forall|i: int, j: int|
        0 <= i < j < entries.len() ==> #[trigger] entries[i].key@ != #[trigger] entries[j].key@
}

/// `e` has the given name and value.
pub open spec fn entry_is(e: PayloadEntry, key: Seq<char>, value: PayloadValue) -> bool {
    e.key@ == key && e.value == value
}

proof fn lemma_lookup_skip(entries: Seq<PayloadEntry>, key: Seq<char>, i: int)
    requires
        0 <= i <= entries.len(),
        forall|j: int| 0 <= j < i ==> #[trigger] entries[j].key@ != key,
    ensures
        lookup(entries, key) == lookup(entries.skip(i), key),
    decreases i,
{
    if i > 0 {
        lemma_lookup_skip(entries, key, i - 1);
        let rest = entries.skip(i - 1);
        assert(rest[0] == entries[i - 1]);
        assert(rest.drop_first() =~= entries.skip(i));
    } else {
        assert(entries.skip(0) =~= entries);
    }
}

/// The message of a failed numeric read.
pub open spec fn numeric_missing_message(field: Seq<char>) -> Seq<char> {
    "Point was missing field "@ + field + " or it did not include a numeric value"@
}

/// The message of a failed text read.
pub open spec fn text_missing_message(field: Seq<char>) -> Seq<char> {
    "Point was missing field "@ + field + " or it was not a string"@
}

/// What reading a number from a payload value gives.
pub open spec fn numeric_of(v: Option<PayloadValue>) -> Option<NumericValue> {
    match v {
        Some(PayloadValue::Double(b)) => Some(NumericValue::Double(b)),
        Some(PayloadValue::Single(b)) => Some(NumericValue::Single(b)),
        Some(PayloadValue::Integer(i)) => Some(NumericValue::Integer(i)),
        _ => None,
    }
}

impl Payload {
    /// Index of the first entry named `key`.
    fn position(&self, key: &str) -> (r: Option<usize>)
        ensures
            match r {
                Some(i) => i < self.entries@.len() && lookup(self.entries@, key@) == Some(
                    self.entries@[i as int].value,
                ),
                None => lookup(self.entries@, key@) is None,
            },
    {
        let wanted = String::from_str(key);
        let mut i: usize = 0;
        while i < self.entries.len()
            invariant
                i <= self.entries@.len(),
                wanted@ == key@,
                forall|j: int| 0 <= j < i ==> #[trigger] self.entries@[j].key@ != key@,
            decreases self.entries@.len() - i,
        {
            if self.entries[i].key == wanted {
                proof {
                    lemma_lookup_skip(self.entries@, key@, i as int);
                    assert(self.entries@.skip(i as int)[0] == self.entries@[i as int]);
                }
                return Some(i);
            }
            i = i + 1;
        }
        proof {
            lemma_lookup_skip(self.entries@, key@, i as int);
            assert(self.entries@.skip(i as int).len() == 0);
        }
        None
    }
}

/// Reads the number named `field_name` from a point's payload; a missing entry or one that
/// holds no number is an internal error that names the field.
pub fn extract_f32_from_payload(payload: &Payload, field_name: &str) -> (r: Result<
    NumericValue,
    Status,
>)
    ensures
        match numeric_of(lookup(payload.entries@, field_name@)) {
            Some(n) => r == Ok::<NumericValue, Status>(n),
            None => r matches Err(s) && status_is(
                s,
                StatusCode::Internal,
                numeric_missing_message(field_name@),
            ),
        },
{
    let found = match payload.position(field_name) {
        Some(i) => match &payload.entries[i].value {
            PayloadValue::Double(b) => Some(NumericValue::Double(*b)),
            PayloadValue::Single(b) => Some(NumericValue::Single(*b)),
            PayloadValue::Integer(v) => Some(NumericValue::Integer(*v)),
            _ => None,
        },
        None => None,
    };
    match found {
        Some(n) => Ok(n),
        None => {
            let mut message = String::from_str("Point was missing field ");
            message.append(field_name);
            message.append(" or it did not include a numeric value");
            Err(Status::new(StatusCode::Internal, message))
        },
    }
}

/// Reads the text named `field_name` from a point's payload; a missing entry or one that
/// holds no text is an internal error that names the field.
pub fn extract_string_from_payload(payload: &Payload, field_name: &str) -> (r: Result<
    String,
    Status,
>)
    ensures
        match lookup(payload.entries@, field_name@) {
            Some(PayloadValue::Text(t)) => r matches Ok(s) && s@ == t@,
            _ => r matches Err(s) && status_is(
                s,
                StatusCode::Internal,
                text_missing_message(field_name@),
            ),
        },
{
    match payload.position(field_name) {
        Some(i) => match &payload.entries[i].value {
            PayloadValue::Text(t) => {
                return Ok(t.clone());
            },
            _ => {},
        },
        None => {},
    }
    let mut message = String::from_str("Point was missing field ");
    message.append(field_name);
    message.append(" or it was not a string");
    Err(Status::new(StatusCode::Internal, message))
}

/// The payload stored beside a transcript chunk: its start and end, its text and the
/// lecture's name.
pub open spec fn transcript_payload_is(p: Payload, te: TranscriptEmbedding, ts: crate::messages::Timestamp) -> bool {
    &&& p.entries@.len() == 4
    &&& entry_is(p.entries@[0], "timestamp_start"@, PayloadValue::Single(ts.timestamp_start_bits))
    &&& entry_is(p.entries@[1], "timestamp_end"@, PayloadValue::Single(ts.timestamp_end_bits))
    &&& entry_is(p.entries@[2], "raw_content"@, PayloadValue::Text(te.raw_content))
    &&& entry_is(p.entries@[3], "lecture_name"@, PayloadValue::Text(te.lecture_name))
}

fn entry(key: &str, value: PayloadValue) -> (e: PayloadEntry)
    ensures
        e.key@ == key@,
        e.value == value,
{
    PayloadEntry { key: String::from_str(key), value }
}

/// Builds the payload of a transcript chunk; a chunk without a timestamp is refused as an
/// invalid argument.
pub fn build_transcript_payload(transcript_embedding: &TranscriptEmbedding) -> (r: Result<
    Payload,
    Status,
>)
    ensures
        match transcript_embedding.timestamp {
            Some(ts) => r matches Ok(p) && transcript_payload_is(p, *transcript_embedding, ts)
                && keys_distinct(p.entries@),
            None => r matches Err(s) && status_is(
                s,
                StatusCode::InvalidArgument,
                "Missing field timestamp"@,
            ),
        },
{
    match transcript_embedding.timestamp {
        None => Err(
            Status::new(StatusCode::InvalidArgument, String::from_str("Missing field timestamp")),
        ),
        Some(ts) => {
            let mut entries: Vec<PayloadEntry> = Vec::new();
            entries.push(entry("timestamp_start", PayloadValue::Single(ts.timestamp_start_bits)));
            entries.push(entry("timestamp_end", PayloadValue::Single(ts.timestamp_end_bits)));
            entries.push(
                entry("raw_content", PayloadValue::Text(transcript_embedding.raw_content.clone())),
            );
            entries.push(
                entry("lecture_name", PayloadValue::Text(transcript_embedding.lecture_name.clone())),
            );
            proof {
                reveal_strlit("timestamp_start");
                reveal_strlit("timestamp_end");
                reveal_strlit("raw_content");
                reveal_strlit("lecture_name");
                assert(entries@[0].key@.len() == 15);
                assert(entries@[1].key@.len() == 13);
                assert(entries@[2].key@.len() == 11);
                assert(entries@[3].key@.len() == 12);
                assert(keys_distinct(entries@));
            }
            Ok(Payload { entries })
        },
    }
}

/// Builds the payload of a lecture summary: its text and the lecture's name.
pub fn build_summary_payload(summary_embedding: &SummaryEmbedding) -> (p: Payload)
    ensures
        p.entries@.len() == 2,
        entry_is(p.entries@[0], "raw_content"@, PayloadValue::Text(summary_embedding.raw_content)),
        entry_is(p.entries@[1], "lecture_name"@, PayloadValue::Text(summary_embedding.lecture_name)),
        keys_distinct(p.entries@),
{
    let mut entries: Vec<PayloadEntry> = Vec::new();
    entries.push(entry("raw_content", PayloadValue::Text(summary_embedding.raw_content.clone())));
    entries.push(entry("lecture_name", PayloadValue::Text(summary_embedding.lecture_name.clone())));
    proof {
        reveal_strlit("raw_content");
        reveal_strlit("lecture_name");
        assert(entries@[0].key@.len() == 11);
        assert(entries@[1].key@.len() == 12);
        assert(keys_distinct(entries@));
    }
    Payload { entries }
}

} // verus!

verus! {

/// Reading a stored transcript payload back gives what was stored: the start and end of
/// the chunk as the numbers that were put in, and its text and lecture name.
pub proof fn law_transcript_payload_reads_back(
    p: Payload,
    te: TranscriptEmbedding,
    ts: crate::messages::Timestamp,
)
    requires
        transcript_payload_is(p, te, ts),
    ensures
        numeric_of(lookup(p.entries@, "timestamp_start"@)) == Some(
            NumericValue::Single(ts.timestamp_start_bits),
        ),
        numeric_of(lookup(p.entries@, "timestamp_end"@)) == Some(
            NumericValue::Single(ts.timestamp_end_bits),
        ),
        lookup(p.entries@, "raw_content"@) == Some(PayloadValue::Text(te.raw_content)),
        lookup(p.entries@, "lecture_name"@) == Some(PayloadValue::Text(te.lecture_name)),
{
    reveal_strlit("timestamp_start");
    reveal_strlit("timestamp_end");
    reveal_strlit("raw_content");
    reveal_strlit("lecture_name");
    let s = p.entries@;
    assert(s[0].key@.len() == 15);
    assert(s[1].key@.len() == 13);
    assert(s[2].key@.len() == 11);
    assert(s[3].key@.len() == 12);
    let s1 = s.drop_first();
    let s2 = s1.drop_first();
    let s3 = s2.drop_first();
    assert(s1[0] == s[1]);
    assert(s2[0] == s[2]);
    assert(s3[0] == s[3]);
    assert(lookup(s, "timestamp_end"@) == lookup(s1, "timestamp_end"@));
    assert(lookup(s, "raw_content"@) == lookup(s1, "raw_content"@));
    assert(lookup(s1, "raw_content"@) == lookup(s2, "raw_content"@));
    assert(lookup(s, "lecture_name"@) == lookup(s1, "lecture_name"@));
    assert(lookup(s1, "lecture_name"@) == lookup(s2, "lecture_name"@));
    assert(lookup(s2, "lecture_name"@) == lookup(s3, "lecture_name"@));
}

} // verus!
