//! How a call is answered when it fails.
use vstd::prelude::*;

verus! {

/// The kind of a failure, as gRPC knows it.
#[derive(Clone, Copy, Debug, PartialEq, Eq, Structural)]
pub enum StatusCode {
    InvalidArgument,
    NotFound,
    AlreadyExists,
    PermissionDenied,
    FailedPrecondition,
    Aborted,
    Unimplemented,
    Internal,
    Unavailable,
    DataLoss,
    Unauthenticated,
    ResourceExhausted,
    DeadlineExceeded,
    Cancelled,
    OutOfRange,
    Unknown,
}

impl DeepView for StatusCode {
    type V = StatusCode;

    open spec fn deep_view(&self) -> StatusCode {
        *self
    }
}

/// A failure: its kind, its message and, where the caller should wait before it asks
/// again, for how many milliseconds in decimal digits.
#[derive(Debug, PartialEq, Eq)]
pub struct ApiStatus {
    pub code: StatusCode,
    pub message: String,
    pub retry_after_millis: Option<String>,
}

/// What an [`ApiStatus`] holds.
#[verifier::ext_equal]
pub struct ApiStatusView {
    pub code: StatusCode,
    pub message: Seq<char>,
    pub retry_after_millis: Option<Seq<char>>,
}

impl DeepView for ApiStatus {
    type V = ApiStatusView;

    open spec fn deep_view(&self) -> ApiStatusView {
        ApiStatusView {
            code: self.code.deep_view(),
            message: self.message.deep_view(),
            retry_after_millis: self.retry_after_millis.deep_view(),
        }
    }
}

impl Clone for ApiStatus {
    fn clone(&self) -> (r: Self)
        ensures
            r.deep_view() == self.deep_view(),
    {
        let r = ApiStatus {
            code: self.code,
            message: self.message.clone(),
            retry_after_millis: self.retry_after_millis.clone(),
        };
        assert(r.retry_after_millis.deep_view() =~= self.retry_after_millis.deep_view());
        r
    }
}

/// A failure with a message alone.
pub open spec fn failure(code: StatusCode, message: Seq<char>) -> ApiStatusView {
    ApiStatusView { code, message, retry_after_millis: None }
}

/// The caller's request is wrong.
pub open spec fn invalid_argument(message: Seq<char>) -> ApiStatusView {
    failure(StatusCode::InvalidArgument, message)
}

impl ApiStatus {
    /// A failure with a message alone.
    pub fn new(code: StatusCode, message: &str) -> (r: Self)
        ensures
            r.deep_view() == failure(code, message@),
    {
        ApiStatus { code, message: message.to_owned(), retry_after_millis: None }
    }

    /// The caller's request is wrong.
    pub fn invalid_argument(message: &str) -> (r: Self)
        ensures
            r.deep_view() == invalid_argument(message@),
    {
        ApiStatus::new(StatusCode::InvalidArgument, message)
    }

    pub fn code(&self) -> (r: StatusCode)
        ensures
            r == self.deep_view().code,
    {
        self.code
    }

    pub fn message(&self) -> (r: &str)
        ensures
            r@ == self.deep_view().message,
    {
        self.message.as_str()
    }
}

} // verus!
