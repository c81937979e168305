//! The request pipeline: a state machine driven once per inbound request.
//!
//! Stages run strictly in order: parameter validation, cache-aside lookup,
//! remote fetch, decode / resize / encode, response assembly, and a deferred
//! cache write. The fetch and the cache store are capabilities of the
//! hosting runtime, so the machine names them as actions: the driver
//! performs each action and hands the outcome back to the next step. The
//! decode / resize / encode work is done inside the machine itself.
//!
//! The deferred cache write is scheduled only after the client response is
//! complete, and its failure is swallowed: it never alters the
//! client-visible outcome. Concurrent first-time requests for the same key
//! each run their own machine; there is no in-flight deduplication, so each
//! fetches and transforms independently, and determinism of the transform
//! makes their responses byte-identical.

use vstd::prelude::*;
use crate::decimal::{dec_value, valid_width_numeral};
use crate::fetcher::ImageFetchError;
use crate::image_util::{decodable, decode_dims, fits_decode_limits, transform_image, transformed_png};
use crate::params::{url_present, validate_params};
use crate::response::{
    are_success_headers, build_success_response, error_response, is_error_response,
    is_success_response, success_headers, ErrorKind, HttpResponse, ResponseBody,
};

verus! {

/// The identity of a request for cache lookup and population: two requests
/// with the same target URL and width always map to the same key.
pub struct CacheKey {
    pub url: String,
    pub width: u32,
}

/// Derive the cache key of a request from its parameters and nothing else.
pub fn make_cache_key(url: &String, width: u32) -> (k: CacheKey)
    ensures
        k.url@ == url@,
        k.width == width,
{
    CacheKey { url: url.clone(), width }
}

/// A response stored in the cache: status, headers (the 30-day cache policy
/// lives in the stored `Cache-Control` header) and body bytes.
pub struct CachedEntry {
    pub status: u16,
    pub headers: Vec<(String, String)>,
    pub body: Vec<u8>,
}

/// `e` stores the success response whose body is `body`.
pub open spec fn is_success_entry(e: CachedEntry, body: Seq<u8>) -> bool {
    &&& e.status == 200
    &&& are_success_headers(e.headers@, body.len() as int)
    &&& e.body@ == body
}

/// `r` serves the stored entry `e` verbatim: same status, the originally
/// stored headers, and exactly the stored bytes.
pub open spec fn is_entry_response(r: HttpResponse, e: CachedEntry) -> bool {
    &&& r.status == e.status
    &&& r.headers@ == e.headers@
    &&& r.body matches ResponseBody::Bytes(b) && b@ == e.body@
}

/// Where the pipeline stands between two pieces of outside work.
pub enum PipelineState {
    /// Parameters validated; waiting for the cache lookup.
    CacheWait { url: String, width: u32 },
    /// Cache missed; waiting for the remote fetch.
    FetchWait { url: String, width: u32 },
    /// Response sent; waiting for the deferred cache write to settle.
    StoreWait,
    /// Nothing left to do.
    Done,
}

/// What the driver must do next.
pub enum PipelineAction {
    /// Look the key up in the cache store and report the result.
    LookupCache { key: CacheKey },
    /// Fetch the raw bytes at the URL and report the result.
    FetchRemote { url: String },
    /// Send this response to the client; the request is finished.
    Respond { response: HttpResponse },
    /// Send this response to the client, then write the entry under the key
    /// in the background; the client must not wait for the write.
    RespondAndStore { response: HttpResponse, key: CacheKey, entry: CachedEntry },
    /// Nothing further.
    Finish,
}

/// A state the step functions keep to: any width carried is positive.
pub open spec fn state_wf(s: PipelineState) -> bool {
    match s {
        PipelineState::CacheWait { url: _, width } => width > 0,
        PipelineState::FetchWait { url: _, width } => width > 0,
        PipelineState::StoreWait => true,
        PipelineState::Done => true,
    }
}

/// Start the pipeline on the raw query parameters. A validation failure
/// answers at once with the exact error; otherwise the cache is consulted
/// before any fetch or transform work.
pub fn start_request(url_param: Option<String>, width_param: Option<String>) -> (r: (
    PipelineState,
    PipelineAction,
))
    ensures
        state_wf(r.0),
        !url_present(url_param) ==> r.0 is Done && (
        r.1 matches PipelineAction::Respond { response } && is_error_response(
            response,
            ErrorKind::MissingUrlParam,
        )),
        url_present(url_param) && width_param is None ==> r.0 is Done && (
        r.1 matches PipelineAction::Respond { response } && is_error_response(
            response,
            ErrorKind::MissingWidthParam,
        )),
        url_present(url_param) && width_param is Some && !valid_width_numeral(width_param->Some_0@)
            ==> r.0 is Done && (r.1 matches PipelineAction::Respond { response }
            && is_error_response(response, ErrorKind::InvalidWidthValue)),
        url_present(url_param) && width_param is Some && valid_width_numeral(width_param->Some_0@)
            ==> {
            &&& r.0 matches PipelineState::CacheWait { url, width } && url@ == url_param->Some_0@
                && width as int == dec_value(width_param->Some_0@)
            &&& r.1 matches PipelineAction::LookupCache { key } && key.url@ == url_param->Some_0@
                && key.width as int == dec_value(width_param->Some_0@)
        },
{
    match validate_params(url_param, width_param) {
        Err(kind) => (
            PipelineState::Done,
            PipelineAction::Respond { response: error_response(kind) },
        ),
        Ok(v) => {
            let key = make_cache_key(&v.url, v.width);
            (
                PipelineState::CacheWait { url: v.url, width: v.width },
                PipelineAction::LookupCache { key },
            )
        },
    }
}

/// Consume the cache lookup's outcome. A hit short-circuits the pipeline
/// and serves the stored entry verbatim, with no fetch and no transform; a
/// miss moves on to the remote fetch.
pub fn on_cache_result(state: PipelineState, cached: Option<CachedEntry>) -> (r: (
    PipelineState,
    PipelineAction,
))
    requires
        state is CacheWait,
        state_wf(state),
    ensures
        state_wf(r.0),
        state matches PipelineState::CacheWait { url, width } ==> match cached {
            Some(entry) => r.0 is Done && (r.1 matches PipelineAction::Respond { response }
                && is_entry_response(response, entry)),
            None => (r.0 matches PipelineState::FetchWait { url: u, width: w } && u@ == url@ && w
                == width) && (r.1 matches PipelineAction::FetchRemote { url: u } && u@ == url@),
        },
{
    match state {
        PipelineState::CacheWait { url, width } => {
            match cached {
                Some(entry) => {
                    let response = HttpResponse {
                        status: entry.status,
                        headers: entry.headers,
                        body: ResponseBody::Bytes(entry.body),
                    };
                    (PipelineState::Done, PipelineAction::Respond { response })
                },
                None => {
                    let fetch_url = url.clone();
                    (
                        PipelineState::FetchWait { url, width },
                        PipelineAction::FetchRemote { url: fetch_url },
                    )
                },
            }
        },
        _ => {
            proof {
                assert(false);
            }
            (PipelineState::Done, PipelineAction::Finish)
        },
    }
}

/// Consume the fetch's outcome. A fetch failure (malformed URL or transport
/// error alike) answers with the fetch error; undecodable bytes answer with
/// the decode error; otherwise the bytes are decoded, resized to the
/// requested width at the original height, and encoded — which always
/// succeeds — and the response is sent while a copy is handed off for the
/// deferred cache write.
pub fn on_fetch_result(state: PipelineState, fetched: Result<Vec<u8>, ImageFetchError>) -> (r: (
    PipelineState,
    PipelineAction,
))
    requires
        state is FetchWait,
        state_wf(state),
    ensures
        state_wf(r.0),
        state matches PipelineState::FetchWait { url, width } ==> match fetched {
            Err(_) => r.0 is Done && (r.1 matches PipelineAction::Respond { response }
                && is_error_response(response, ErrorKind::FetchFailure)),
            Ok(bytes) => {
                if !decodable(bytes@) {
                    r.0 is Done && (r.1 matches PipelineAction::Respond { response }
                        && is_error_response(response, ErrorKind::UnsupportedOrCorruptImage))
                } else {
                    r.0 is StoreWait && (
                    r.1 matches PipelineAction::RespondAndStore { response, key, entry } && {
                        &&& is_success_response(response, transformed_png(bytes@, width))
                        &&& is_success_entry(entry, transformed_png(bytes@, width))
                        &&& key.url@ == url@ && key.width == width
                        &&& (fits_decode_limits(width, decode_dims(bytes@)->Some_0.1)
                            ==> decode_dims(transformed_png(bytes@, width)) == Some(
                            (width, decode_dims(bytes@)->Some_0.1),
                        ))
                    })
                }
            },
        },
{
    match state {
        PipelineState::FetchWait { url, width } => {
            let bytes = match fetched {
                Ok(bytes) => bytes,
                Err(_) => {
                    return (
                        PipelineState::Done,
                        PipelineAction::Respond {
                            response: error_response(ErrorKind::FetchFailure),
                        },
                    );
                },
            };
            match transform_image(bytes, width) {
                Err(kind) => (
                    PipelineState::Done,
                    PipelineAction::Respond { response: error_response(kind) },
                ),
                Ok(out) => {
                    let key = make_cache_key(&url, width);
                    let stored_body = clone_bytes(&out);
                    let stored_headers = success_headers(stored_body.len());
                    let entry = CachedEntry {
                        status: 200,
                        headers: stored_headers,
                        body: stored_body,
                    };
                    let response = build_success_response(out);
                    (
                        PipelineState::StoreWait,
                        PipelineAction::RespondAndStore { response, key, entry },
                    )
                },
            }
        },
        _ => {
            proof {
                assert(false);
            }
            (PipelineState::Done, PipelineAction::Finish)
        },
    }
}

/// Consume the deferred cache write's outcome. The client response went out
/// before the write was scheduled, so the outcome — success or failure — is
/// swallowed and changes nothing the client sees.
pub fn on_store_result(state: PipelineState, succeeded: bool) -> (r: (
    PipelineState,
    PipelineAction,
))
    requires
        state is StoreWait,
    ensures
        r.0 is Done,
        r.1 is Finish,
{
    let _ = succeeded;
    (PipelineState::Done, PipelineAction::Finish)
}

/// An exact copy of a byte buffer.
fn clone_bytes(v: &Vec<u8>) -> (r: Vec<u8>)
    ensures
        r@ == v@,
{
    let mut r: Vec<u8> = Vec::new();
    let mut i: usize = 0;
    while i < v.len()
        invariant
            i <= v.len(),
            r@ == v@.subrange(0, i as int),
        decreases v.len() - i,
    {
        r.push(v[i]);
        proof {
            assert(r@ =~= v@.subrange(0, i as int + 1));
        }
        i += 1;
    }
    proof {
        assert(v@.subrange(0, v@.len() as int) =~= v@);
    }
    r
}

/// Law: the transform is deterministic, so any two success responses built
/// from the same fetched bytes and the same requested width agree in
/// status, in every header, and byte for byte in their bodies — whether the
/// two computations ran in sequence (a repeated request against an empty
/// cache) or side by side (simultaneous first-time requests, which this
/// pipeline does not deduplicate).
pub proof fn lemma_success_responses_identical(
    r1: HttpResponse,
    r2: HttpResponse,
    bytes: Seq<u8>,
    width: u32,
)
    requires
        is_success_response(r1, transformed_png(bytes, width)),
        is_success_response(r2, transformed_png(bytes, width)),
    ensures
        r1.status == r2.status,
        r1.headers@.len() == r2.headers@.len(),
        forall|i: int|
            0 <= i < r1.headers@.len() ==> #[trigger] r1.headers@[i].0@ == r2.headers@[i].0@
                && r1.headers@[i].1@ == r2.headers@[i].1@,
        r1.body matches ResponseBody::Bytes(b1) && r2.body matches ResponseBody::Bytes(b2) && b1@
            == b2@,
{
    assert forall|i: int| 0 <= i < r1.headers@.len() implies #[trigger] r1.headers@[i].0@
        == r2.headers@[i].0@ && r1.headers@[i].1@ == r2.headers@[i].1@ by {
        if i == 0 {
        } else if i == 1 {
        } else if i == 2 {
        } else {
            assert(i == 3);
        }
    }
}

/// Law: a cache hit serves back exactly what the populating miss stored —
/// the hit's status and body bytes equal those of the original success
/// response, and its headers are the stored ones.
pub proof fn lemma_hit_serves_original_bytes(
    original: HttpResponse,
    entry: CachedEntry,
    hit: HttpResponse,
    body: Seq<u8>,
)
    requires
        is_success_response(original, body),
        is_success_entry(entry, body),
        is_entry_response(hit, entry),
    ensures
        hit.status == original.status,
        hit.body matches ResponseBody::Bytes(hb) && original.body matches ResponseBody::Bytes(ob)
            && hb@ == ob@,
        are_success_headers(hit.headers@, body.len() as int),
{
}

} // verus!
