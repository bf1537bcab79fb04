//! The trace stage's data: a bounded snapshot of request and response bodies,
//! and the record that closes a request's span. Bodies over the configured
//! limit are truncated rather than buffered whole; the response body is
//! recorded before compression, so the logs stay readable.

use vstd::prelude::*;

verus! {

/// A body snapshot bounded by `limit` bytes.
pub open spec fn spec_capture(b: Seq<u8>, limit: int) -> Seq<u8> {
    if b.len() <= limit {
        b
    } else {
        b.take(limit)
    }
}

/// Copy at most `limit` bytes of a body for the trace record.
pub fn capture_body(b: &Vec<u8>, limit: usize) -> (r: Vec<u8>)
    ensures
        r@ == spec_capture(b@, limit as int),
{
    let n: usize = if b.len() <= limit {
        b.len()
    } else {
        limit
    };
    let mut out: Vec<u8> = Vec::new();
    let mut i: usize = 0;
    while i < n
        invariant
            n <= b@.len(),
            0 <= i <= n,
            out@ == b@.take(i as int),
        decreases n - i,
    {
        out.push(b[i]);
        proof {
            assert(out@ =~= b@.take(i + 1 as int));
        }
        i = i + 1;
    }
    proof {
        if b@.len() <= limit {
            assert(b@.take(b@.len() as int) =~= b@);
        }
    }
    out
}

/// What the span records when a request's lifetime ends. Exporting it is
/// best-effort work outside the response path; the record itself is the
/// library's contract.
pub struct TraceRecord {
    pub request_id: String,
    pub request_body: Vec<u8>,
    pub response_body: Vec<u8>,
    pub status: u16,
}

} // verus!
