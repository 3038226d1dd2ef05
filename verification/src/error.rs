use vstd::prelude::*;

verus! {

/// The error kinds a completion, probe or tool call can surface.
///
/// Errors raised before a stream starts are returned directly; errors raised
/// mid-stream arrive as the stream's terminal item, after which the stream
/// ends for good.
#[derive(Clone, Copy, Debug, PartialEq, Eq, Structural)]
pub enum LanguageModelError {
    /// No reachable backend: the provider's model snapshot is empty.
    AuthenticationRequired,
    /// The transport could not reach the backend; the caller may retry.
    BackendUnreachable,
    /// No data arrived within the configured low-activity window; retryable.
    Timeout,
    /// The backend does not implement the requested operation.
    UnsupportedOperation,
    /// The backend's output does not conform to the requested schema.
    SchemaViolation,
    /// The backend sent a payload the adapter cannot make sense of.
    InvalidResponse,
}

impl LanguageModelError {
    /// Whether a caller may sensibly retry the same call unchanged.
    pub fn is_retryable(&self) -> (r: bool)
        ensures
            r == (*self == LanguageModelError::BackendUnreachable || *self
                == LanguageModelError::Timeout),
    {
        match self {
            LanguageModelError::BackendUnreachable => true,
            LanguageModelError::Timeout => true,
            _ => false,
        }
    }

    /// A short human-readable description of the error kind.
    pub fn message(&self) -> (r: &'static str)
        ensures
            *self == LanguageModelError::AuthenticationRequired ==> r@ =~= "authentication required"@,
            *self == LanguageModelError::BackendUnreachable ==> r@ =~= "backend unreachable"@,
            *self == LanguageModelError::Timeout ==> r@ =~= "timed out waiting for data"@,
            *self == LanguageModelError::UnsupportedOperation ==> r@ =~= "operation not supported by this backend"@,
            *self == LanguageModelError::SchemaViolation ==> r@ =~= "backend output did not match the requested schema"@,
            *self == LanguageModelError::InvalidResponse ==> r@ =~= "malformed backend payload"@,
    {
        match self {
            LanguageModelError::AuthenticationRequired => "authentication required",
            LanguageModelError::BackendUnreachable => "backend unreachable",
            LanguageModelError::Timeout => "timed out waiting for data",
            LanguageModelError::UnsupportedOperation => "operation not supported by this backend",
            LanguageModelError::SchemaViolation => "backend output did not match the requested schema",
            LanguageModelError::InvalidResponse => "malformed backend payload",
        }
    }
}

} // verus!
