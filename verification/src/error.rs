//! The error taxonomy: transport failures, a missing consistency-index
//! header, decode failures (which keep the offending bytes for diagnosis),
//! and configuration errors.

use vstd::prelude::*;

verus! {

/// How many raw bytes a decode error keeps of the offending input.
pub const DECODE_ERROR_BYTES_KEPT: usize = 256;

#[derive(Clone, Debug)]
pub enum Error {
    /// The transport failed (connection error, timeout, non-2xx status).
    /// Never retried by this layer.
    Transport(String),
    /// A blocking call's response lacked the consistency-index header.
    /// A protocol violation by the server; distinct from any decode failure.
    MissingIndex,
    /// A body or header failed to parse into the expected shape. Carries the
    /// offending bytes (truncated if large) and the underlying parse failure.
    Decode { data: Vec<u8>, message: String },
    /// The client configuration is unusable.
    Config(String),
}

/// The prefix of `b` that a decode error keeps: all of it if short enough.
pub open spec fn spec_kept_bytes(b: Seq<u8>) -> Seq<u8> {
    if b.len() <= DECODE_ERROR_BYTES_KEPT {
        b
    } else {
        b.take(DECODE_ERROR_BYTES_KEPT as int)
    }
}

/// Build a decode error from the offending bytes and a parser message,
/// truncating the kept bytes to `DECODE_ERROR_BYTES_KEPT`.
pub fn decode_error(data: &[u8], message: String) -> (e: Error)
    ensures
        e matches Error::Decode { data: d, message: m }
            && d@ == spec_kept_bytes(data@) && m == message,
{
    let n: usize = if data.len() <= DECODE_ERROR_BYTES_KEPT {
        data.len()
    } else {
        DECODE_ERROR_BYTES_KEPT
    };
    let mut kept: Vec<u8> = Vec::new();
    for i in 0..n
        invariant
            n <= data.len(),
            kept@ == data@.take(i as int),
    {
        kept.push(data[i]);
        proof {
            assert(kept@ =~= data@.take(i + 1));
        }
    }
    proof {
        assert(spec_kept_bytes(data@) =~= data@.take(n as int));
    }
    Error::Decode { data: kept, message }
}

} // verus!
