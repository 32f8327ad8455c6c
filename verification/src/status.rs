use vstd::prelude::*;

verus! {

/// The gRPC status codes, in the order and with the numbers that gRPC gives them
/// (`Succeeded` is the code that gRPC calls `OK`).
#[derive(Clone, Copy, Debug, PartialEq, Eq, Structural)]
pub enum StatusCode {
    Succeeded,
    Cancelled,
    Unknown,
    InvalidArgument,
    DeadlineExceeded,
    NotFound,
    AlreadyExists,
    PermissionDenied,
    ResourceExhausted,
    FailedPrecondition,
    Aborted,
    OutOfRange,
    Unimplemented,
    Internal,
    Unavailable,
    DataLoss,
    Unauthenticated,
}

/// The number of a status code on the wire.
pub open spec fn code_number(code: StatusCode) -> int {
    match code {
        StatusCode::Succeeded => 0,
        StatusCode::Cancelled => 1,
        StatusCode::Unknown => 2,
        StatusCode::InvalidArgument => 3,
        StatusCode::DeadlineExceeded => 4,
        StatusCode::NotFound => 5,
        StatusCode::AlreadyExists => 6,
        StatusCode::PermissionDenied => 7,
        StatusCode::ResourceExhausted => 8,
        StatusCode::FailedPrecondition => 9,
        StatusCode::Aborted => 10,
        StatusCode::OutOfRange => 11,
        StatusCode::Unimplemented => 12,
        StatusCode::Internal => 13,
        StatusCode::Unavailable => 14,
        StatusCode::DataLoss => 15,
        StatusCode::Unauthenticated => 16,
    }
}

/// The name of the status code with the given number, as the code's `Debug` output
/// prints it.
pub open spec fn code_name(number: int) -> Seq<char> {
    if number == 0 {
        "Ok"@
    } else if number == 1 {
        "Cancelled"@
    } else if number == 2 {
        "Unknown"@
    } else if number == 3 {
        "InvalidArgument"@
    } else if number == 4 {
        "DeadlineExceeded"@
    } else if number == 5 {
        "NotFound"@
    } else if number == 6 {
        "AlreadyExists"@
    } else if number == 7 {
        "PermissionDenied"@
    } else if number == 8 {
        "ResourceExhausted"@
    } else if number == 9 {
        "FailedPrecondition"@
    } else if number == 10 {
        "Aborted"@
    } else if number == 11 {
        "OutOfRange"@
    } else if number == 12 {
        "Unimplemented"@
    } else if number == 13 {
        "Internal"@
    } else if number == 14 {
        "Unavailable"@
    } else if number == 15 {
        "DataLoss"@
    } else {
        "Unauthenticated"@
    }
}

/// A gRPC status: a code and a human readable message.
pub struct Status {
    pub code: StatusCode,
    pub message: String,
}

/// `s` has the given code and message.
pub open spec fn status_is(s: Status, code: StatusCode, message: Seq<char>) -> bool {
    s.code == code && s.message@ == message
}

impl Status {
    /// A status with the given code and message.
    pub fn new(code: StatusCode, message: String) -> (s: Status)
        ensures
            s.code == code,
            s.message == message,
    {
        Status { code, message }
    }

    /// The number of this status's code on the wire.
    pub fn code_value(&self) -> (n: i32)
        ensures
            n as int == code_number(self.code),
    {
        match self.code {
            StatusCode::Succeeded => 0,
            StatusCode::Cancelled => 1,
            StatusCode::Unknown => 2,
            StatusCode::InvalidArgument => 3,
            StatusCode::DeadlineExceeded => 4,
            StatusCode::NotFound => 5,
            StatusCode::AlreadyExists => 6,
            StatusCode::PermissionDenied => 7,
            StatusCode::ResourceExhausted => 8,
            StatusCode::FailedPrecondition => 9,
            StatusCode::Aborted => 10,
            StatusCode::OutOfRange => 11,
            StatusCode::Unimplemented => 12,
            StatusCode::Internal => 13,
            StatusCode::Unavailable => 14,
            StatusCode::DataLoss => 15,
            StatusCode::Unauthenticated => 16,
        }
    }
}

/// The description that the gRPC library gives the status code with the given number.
pub open spec fn code_description(number: int) -> Seq<char> {
    if number == 0 {
        "The operation completed successfully"@
    } else if number == 1 {
        "The operation was cancelled"@
    } else if number == 2 {
        "Unknown error"@
    } else if number == 3 {
        "Client specified an invalid argument"@
    } else if number == 4 {
        "Deadline expired before operation could complete"@
    } else if number == 5 {
        "Some requested entity was not found"@
    } else if number == 6 {
        "Some entity that we attempted to create already exists"@
    } else if number == 7 {
        "The caller does not have permission to execute the specified operation"@
    } else if number == 8 {
        "Some resource has been exhausted"@
    } else if number == 9 {
        "The system is not in a state required for the operation's execution"@
    } else if number == 10 {
        "The operation was aborted"@
    } else if number == 11 {
        "Operation was attempted past the valid range"@
    } else if number == 12 {
        "Operation is not implemented or not supported"@
    } else if number == 13 {
        "Internal error"@
    } else if number == 14 {
        "The service is currently unavailable"@
    } else if number == 15 {
        "Unrecoverable data loss or corruption"@
    } else {
        "The request does not have valid authentication credentials"@
    }
}

/// Every character of `s` is printable ASCII other than a quote or a backslash: the
/// characters that `Debug` writes unescaped.
pub open spec fn is_plain_text(s: Seq<char>) -> bool {
    forall|i: int|
        0 <= i < s.len() ==> ' ' <= #[trigger] s[i] <= '~' && s[i] != '"' && s[i] != '\\'
            && s[i] != '\''
}

/// The text that the gRPC library's `Display` of a status with this code number and
/// message prints.
pub uninterp spec fn status_display(code: i32, message: Seq<char>) -> Seq<char>;

/// Calls `tonic::Status::new` with the code of the given number (`tonic::Code::from_i32`)
/// and the message, then `to_string` (tonic's `Display` for `Status`). The claim is that the
/// text depends on the code number and the message alone (a freshly built status has no
/// source); and, from tonic's `Display`, that it is `code: '<description>'` followed, for a
/// non-empty message, by `, message: ` and the message's `Debug` text, which for plain text
/// is the message between double quotes. What `Debug` writes for other messages is left to
/// the name `status_display`.
#[verifier::external_body]
pub(crate) fn status_text(code: i32, message: &str) -> (text: String)
    requires
        0 <= code <= 16,
    ensures
        text@ == status_display(code, message@),
        message@.len() > 0 && is_plain_text(message@) ==> text@ == "code: '"@ + code_description(
            code as int,
        ) + "', message: \""@ + message@ + "\""@,
{
    tonic::Status::new(tonic::Code::from_i32(code), message).to_string()
}

/// Calls `format!("{:?}", tonic::Code::from_i32(code))`. `tonic::Code` derives `Debug`, so
/// the text is the name of the variant with that number; the numbers 0 to 16 are the
/// variants that tonic declares.
#[verifier::external_body]
pub(crate) fn code_debug_text(code: i32) -> (text: String)
    requires
        0 <= code <= 16,
    ensures
        text@ == code_name(code as int),
{
    format!("{:?}", tonic::Code::from_i32(code))
}

} // verus!
