//! Verified core of an edge HTTP proxy that fetches a remote image, resizes
//! it to a caller-supplied width, and serves the result with long-lived
//! caching.
//!
//! The library holds the per-request pipeline: query-parameter validation,
//! cache-aside lookup, decode / resize / encode of the fetched bytes, response
//! assembly, and the decision logic around the deferred cache write. Network
//! I/O and the cache store itself are capabilities of the hosting runtime;
//! the pipeline is driven as a state machine whose actions name the outside
//! work to perform.

pub mod decimal;
pub mod fetcher;
pub mod image_util;
pub mod params;
pub mod pipeline;
pub mod response;
