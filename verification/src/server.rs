//! The exporter: which response a scrape request gets.
//!
//! The listener itself is not here. It hands each request's method and path to
//! `handle_request` and sends what comes back.

use crate::exposition::{family_head, is_rendering, occurs_in, text_format, text_format_type};
use crate::metrics::{is_scrape_text, ArbitrumMetrics, EncodeError, GaugeId};
use vstd::prelude::*;
use vstd::string::*;

verus! {

/// The method of a scrape request.
pub const SCRAPE_METHOD: &'static str = "GET";

/// The path of a scrape request.
pub const METRICS_PATH: &'static str = "/metrics";

/// Status of the response to a scrape request.
pub const STATUS_OK: u16 = 200;

/// Status of the response to any other request.
pub const STATUS_NOT_FOUND: u16 = 404;

/// Body of the response to any other request.
pub const NOT_FOUND_BODY: &'static str = "Not Found";

/// Where a request leads.
#[derive(Clone, Copy, Debug, PartialEq, Eq, Structural)]
pub enum Route {
    /// A scrape: `GET /metrics`.
    Metrics,
    /// Any other method or path.
    NotFound,
}

/// A response as plain values: the status, the `Content-Type` header if the
/// response has one, and the body.
#[derive(Debug, PartialEq, Eq)]
pub struct ScrapeResponse {
    pub status: u16,
    pub content_type: Option<String>,
    pub body: Vec<u8>,
}

/// What a response holds.
pub struct ScrapeResponseView {
    pub status: u16,
    pub content_type: Option<Seq<char>>,
    pub body: Seq<u8>,
}

impl View for ScrapeResponse {
    type V = ScrapeResponseView;

    open spec fn view(&self) -> ScrapeResponseView {
        ScrapeResponseView {
            status: self.status,
            content_type: match self.content_type {
                Some(text) => Some(text@),
                None => None,
            },
            body: self.body@,
        }
    }
}

/// Where a request with this method and path leads.
pub open spec fn spec_route(method: Seq<char>, path: Seq<char>) -> Route {
    if method == SCRAPE_METHOD@ && path == METRICS_PATH@ {
        Route::Metrics
    } else {
        Route::NotFound
    }
}

/// The response to a scrape whose rendering is `body`.
pub open spec fn spec_metrics_response(body: Seq<u8>) -> ScrapeResponseView {
    ScrapeResponseView { status: STATUS_OK, content_type: Some(text_format()), body }
}

/// The response to a request that is no scrape.
pub open spec fn spec_not_found() -> ScrapeResponseView {
    ScrapeResponseView {
        status: STATUS_NOT_FOUND,
        content_type: None,
        body: NOT_FOUND_BODY.spec_bytes(),
    }
}

/// Whether two strings hold the same text.
fn same_text(a: &str, b: &str) -> (r: bool)
    ensures
        r == (a@ == b@),
{
    let x = a.as_bytes();
    let y = b.as_bytes();
    proof {
        vstd::utf8::encode_utf8_decode_utf8(a@);
        vstd::utf8::encode_utf8_decode_utf8(b@);
    }
    if x.len() != y.len() {
        return false;
    }
    let mut i: usize = 0;
    while i < x.len()
        invariant
            i <= x.len(),
            x.len() == y.len(),
            x@ == a.spec_bytes(),
            y@ == b.spec_bytes(),
            forall|j: int| 0 <= j < i ==> x@[j] == y@[j],
        decreases x.len() - i,
    {
        if x[i] != y[i] {
            return false;
        }
        i += 1;
    }
    proof {
        assert(x@ =~= y@);
    }
    true
}

/// Decides where a request leads: to the metrics if it is a `GET` for
/// `/metrics`, and nowhere otherwise.
pub fn route(method: &str, path: &str) -> (r: Route)
    ensures
        r == spec_route(method@, path@),
{
    if same_text(method, SCRAPE_METHOD) && same_text(path, METRICS_PATH) {
        Route::Metrics
    } else {
        Route::NotFound
    }
}

/// The response to a request that is no scrape: status 404 with a short
/// plain body and no content type.
pub fn not_found() -> (r: ScrapeResponse)
    ensures
        r@ == spec_not_found(),
{
    ScrapeResponse {
        status: STATUS_NOT_FOUND,
        content_type: None,
        body: NOT_FOUND_BODY.as_bytes_vec(),
    }
}

/// The response to a scrape, given the outcome of the rendering and the
/// content type that the encoder declares.
///
/// Where the rendering succeeded, the response has status 200, that content
/// type, and the rendered text as its body. Where it failed, there is no
/// response, and the error is handed on.
pub fn metrics_response(encoded: Result<Vec<u8>, EncodeError>, content_type: String) -> (r: Result<
    ScrapeResponse,
    EncodeError,
>)
    ensures
        match encoded {
            Ok(body) => r matches Ok(response) && response.status == STATUS_OK
                && response.content_type == Some(content_type) && response.body == body,
            Err(error) => r == Err::<ScrapeResponse, EncodeError>(error),
        },
{
    match encoded {
        Ok(body) => Ok(ScrapeResponse { status: STATUS_OK, content_type: Some(content_type), body }),
        Err(error) => Err(error),
    }
}

/// Answers one request from the current state of the metric set.
///
/// A request that is no scrape gets the not-found response. A scrape gets a
/// response with status 200, the encoder's content type, and as its body the
/// encoder's rendering of the registry of the metric set that was given: the
/// block of the gas price gauge, then that of the latest block gauge, each
/// with the gauge's help line, the line that declares its family, and one
/// sample line. Every request gets a response.
pub fn handle_request(metrics: &ArbitrumMetrics, method: &str, path: &str) -> (r: Result<
    ScrapeResponse,
    EncodeError,
>)
    ensures
        r is Ok,
        spec_route(method@, path@) == Route::NotFound ==> (r matches Ok(response) && response@
            == spec_not_found()),
        spec_route(method@, path@) == Route::Metrics ==> (r matches Ok(response) && response@
            == spec_metrics_response(response.body@)),
        spec_route(method@, path@) == Route::Metrics ==> (r matches Ok(response) && is_rendering(
            metrics.spec_registry(),
            response.body@,
        )),
        spec_route(method@, path@) == Route::Metrics ==> (r matches Ok(response) && is_scrape_text(
            response.body@,
        )),
        spec_route(method@, path@) == Route::Metrics ==> (r matches Ok(response)
            && forall|id: GaugeId|
            occurs_in(family_head(#[trigger] id.spec_name(), id.spec_help()), response.body@)),
        spec_route(method@, path@) == Route::Metrics ==> (r matches Ok(response)
            && forall|id: GaugeId|
            occurs_in(vstd::utf8::encode_utf8(#[trigger] id.spec_name()), response.body@)),
{
    match route(method, path) {
        Route::Metrics => metrics_response(metrics.encode(), text_format_type()),
        Route::NotFound => Ok(not_found()),
    }
}

/// A request for any path but `/metrics` leads nowhere, whatever its method,
/// and so does a request with any method but `GET`, whatever its path.
pub proof fn lemma_other_requests_not_found(method: Seq<char>, path: Seq<char>)
    requires
        path != METRICS_PATH@ || method != SCRAPE_METHOD@,
    ensures
        spec_route(method, path) == Route::NotFound,
{
}

} // verus!
