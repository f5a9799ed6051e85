use vstd::prelude::*;

verus! {

/// Every failure a caller of the client can observe.
///
/// Per-entry payload decode failures are deliberately absent: a malformed
/// payload degrades that one entry (its raw text is preserved) and never
/// fails the batch.
#[derive(Debug, Clone, PartialEq, Eq)]
pub enum SyncError {
    /// The wire form of a cursor was not valid hex, or named more than
    /// 16 bytes. Input validation; never retried.
    MalformedCursor,
    /// The bearer token cannot form a valid HTTP header value.
    /// Construction-time and fatal.
    InvalidCredential,
    /// The server answered with a 4xx status. Permanent: surfaced at once
    /// with the status and the response body, never retried.
    ClientRejected(u16, String),
    /// Transient failures (5xx, network trouble, malformed response body)
    /// kept recurring until the backoff budget ran out.
    RetriesExhausted,
}

} // verus!
