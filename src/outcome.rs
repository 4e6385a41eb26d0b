use vstd::prelude::*;

verus! {

/// The classified result of one request attempt. Latencies are in nanoseconds,
/// measured from just before dispatch.
#[derive(Clone, Copy, Debug, PartialEq, Eq, Structural)]
pub enum Outcome {
    /// Transport completed with a status in `[200, 300)`.
    Success { bytes: u64, latency_ns: u64 },
    /// Transport completed with a status outside `[200, 300)`.
    HttpError { latency_ns: u64 },
    /// The client reported an error.
    TransportError { latency_ns: u64 },
    /// The per-request timeout fired before a response arrived.
    Timeout { latency_ns: u64 },
}

/// A status counts as success when it lies in `[200, 300)`.
pub open spec fn is_success_status(status: u16) -> bool {
    200 <= status && status < 300
}

impl Outcome {
    pub open spec fn latency_spec(self) -> u64 {
        match self {
            Outcome::Success { latency_ns, .. } => latency_ns,
            Outcome::HttpError { latency_ns } => latency_ns,
            Outcome::TransportError { latency_ns } => latency_ns,
            Outcome::Timeout { latency_ns } => latency_ns,
        }
    }

    /// Bytes that count toward the transferred volume: only a success carries any.
    pub open spec fn bytes_spec(self) -> u64 {
        match self {
            Outcome::Success { bytes, .. } => bytes,
            _ => 0,
        }
    }

    /// The latency of this attempt in nanoseconds.
    pub fn latency_ns(&self) -> (r: u64)
        ensures
            r == self.latency_spec(),
    {
        match self {
            Outcome::Success { latency_ns, .. } => *latency_ns,
            Outcome::HttpError { latency_ns } => *latency_ns,
            Outcome::TransportError { latency_ns } => *latency_ns,
            Outcome::Timeout { latency_ns } => *latency_ns,
        }
    }

    /// Whether the attempt counts as a success.
    pub fn is_success(&self) -> (r: bool)
        ensures
            r == self is Success,
    {
        matches!(self, Outcome::Success { .. })
    }
}

/// Classifies an attempt whose transport completed with `status`, after its body
/// was drained (`bytes` read; a drain failure is reported as 0 bytes).
pub fn classify_response(status: u16, bytes: u64, latency_ns: u64) -> (r: Outcome)
    ensures
        is_success_status(status) ==> r == (Outcome::Success { bytes, latency_ns }),
        !is_success_status(status) ==> r == (Outcome::HttpError { latency_ns }),
{
    if 200 <= status && status < 300 {
        Outcome::Success { bytes, latency_ns }
    } else {
        Outcome::HttpError { latency_ns }
    }
}

} // verus!
