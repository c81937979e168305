//! Outcome of the remote image fetch.
//!
//! The fetch itself is network I/O performed by the hosting runtime; the
//! pipeline only consumes its outcome. A fetch either yields the complete
//! body bytes or fails with one of these errors; any chunk-level read error
//! must abort the whole fetch rather than degrade a chunk to empty bytes.

use vstd::prelude::*;

verus! {

/// Why a remote image fetch failed.
#[derive(Clone, Copy, PartialEq, Eq, Structural, Debug)]
pub enum ImageFetchError {
    /// The target string is not a well-formed absolute URL.
    InvalidUrl,
    /// Transport error, non-success status, or a body read error.
    FailedToFetch,
}

/// The fetched response counts as successful exactly for a 2xx status.
pub fn fetch_status_ok(status: u16) -> (r: bool)
    ensures
        r <==> 200 <= status < 300,
{
    200 <= status && status < 300
}

/// Fold one body chunk into the bytes read so far: a chunk-level read error
/// aborts the whole fetch rather than degrading the chunk to empty bytes.
pub fn append_chunk(acc: Vec<u8>, chunk: Result<Vec<u8>, ()>) -> (r: Result<
    Vec<u8>,
    ImageFetchError,
>)
    ensures
        chunk matches Ok(c) ==> (r matches Ok(v) && v@ == acc@ + c@),
        chunk is Err ==> (r matches Err(e) && e == ImageFetchError::FailedToFetch),
{
    match chunk {
        Ok(c) => {
            let mut out = acc;
            let ghost base = out@;
            let mut i: usize = 0;
            proof {
                assert(base + c@.subrange(0, 0) =~= base);
            }
            while i < c.len()
                invariant
                    i <= c.len(),
                    out@ == base + c@.subrange(0, i as int),
                decreases c.len() - i,
            {
                out.push(c[i]);
                proof {
                    assert(out@ =~= base + c@.subrange(0, i as int + 1));
                }
                i += 1;
            }
            proof {
                assert(base + c@.subrange(0, c@.len() as int) =~= base + c@);
            }
            Ok(out)
        },
        Err(()) => Err(ImageFetchError::FailedToFetch),
    }
}

} // verus!
