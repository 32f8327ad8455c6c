use lecture_rag::search::whisper_failure_message;
use lecture_rag::status::{Status, StatusCode};
use lecture_rag::text::{address_text, decimal_text};

#[test]
fn decimal_text_writes_plain_decimal() {
    assert_eq!(decimal_text(0), "0");
    assert_eq!(decimal_text(7), "7");
    assert_eq!(decimal_text(10), "10");
    assert_eq!(decimal_text(40041), "40041");
    assert_eq!(decimal_text(u32::MAX), "4294967295");
    for n in [1u32, 9, 99, 100, 101, 65535, 1_000_000] {
        assert_eq!(decimal_text(n), format!("{}", n));
    }
}

#[test]
fn address_text_joins_host_and_port() {
    assert_eq!(address_text("127.0.0.1", 50051), "127.0.0.1:50051");
    assert_eq!(address_text("http://qdrantclient", 40041), "http://qdrantclient:40041");
    assert_eq!(address_text("", 0), ":0");
}

#[test]
fn status_code_numbers_follow_grpc() {
    assert_eq!(Status::new(StatusCode::Succeeded, String::new()).code_value(), 0);
    assert_eq!(Status::new(StatusCode::InvalidArgument, String::new()).code_value(), 3);
    assert_eq!(Status::new(StatusCode::Aborted, String::new()).code_value(), 10);
    assert_eq!(Status::new(StatusCode::Unimplemented, String::new()).code_value(), 12);
    assert_eq!(Status::new(StatusCode::Internal, String::new()).code_value(), 13);
    assert_eq!(Status::new(StatusCode::Unauthenticated, String::new()).code_value(), 16);
}

#[test]
fn whisper_failure_names_code_and_message() {
    let s = Status::new(StatusCode::Unavailable, "connection refused".to_string());
    assert_eq!(
        whisper_failure_message(&s),
        "Transcription failed: connection refused (status: Unavailable)"
    );
    let s = Status::new(StatusCode::DeadlineExceeded, String::new());
    assert_eq!(whisper_failure_message(&s), "Transcription failed:  (status: DeadlineExceeded)");
}
