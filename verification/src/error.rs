use vstd::prelude::*;

verus! {

/// Errors reported by the client.
///
/// `RequestFailed`, `ApiError` and `Timeout` are fatal: a stream that
/// reports one of them produces no further items.  `InvalidResponse`
/// (a framed line that is not valid UTF-8) and `InvalidResponseFormat`
/// (a line that does not parse as one JSON document) are item-level:
/// they are reported for the one offending line and the stream goes on.
#[derive(Debug, Clone, PartialEq, Eq)]
pub enum OllamaError {
    /// The transport could not deliver the request or the response body.
    RequestFailed(String),
    /// The server answered with a non-success status; carries the status
    /// and whatever body text could be recovered.
    ApiError(String),
    /// A framed line is not a single well-formed JSON document.
    InvalidResponseFormat(String),
    /// A framed line is not valid UTF-8.
    InvalidResponse(String),
    /// The caller's deadline expired while waiting; treated as cancellation.
    Timeout,
}

impl OllamaError {
    /// True of the errors that terminate a stream; the two item-level
    /// errors are reported per line and leave the stream running.
    pub open spec fn is_fatal(self) -> bool {
        match self {
            OllamaError::RequestFailed(_) => true,
            OllamaError::ApiError(_) => true,
            OllamaError::Timeout => true,
            OllamaError::InvalidResponseFormat(_) => false,
            OllamaError::InvalidResponse(_) => false,
        }
    }
}

} // verus!
