//! The middleware pipeline, composed in a fixed order around every dispatch:
//! request-ID assignment on entry, CORS gating and pre-flight short-circuiting
//! before the handler, then — on the way out — compression negotiation over
//! the materialized body, the CORS echo, and request-ID propagation as the
//! outermost stage, so that every response, error or not, carries exactly one
//! request id. The trace span opens on entry and closes on every exit path
//! with bounded body snapshots, recorded before compression.

use vstd::prelude::*;

use crate::compress::compression_due;
use crate::compress::compression_stage;
use crate::compress::gzip_of;
use crate::cors::CorsConfig;
use crate::cors::origin_allowed;
use crate::http::Header;
use crate::http::Method;
use crate::http::Request;
use crate::http::Response;
use crate::http::first_value;
use crate::http::has_name;
use crate::http::lemma_values_empty;
use crate::http::set_header;
use crate::http::values_of;
use crate::router::Router;
use crate::router::match_at_some;
use crate::router::path_known;
use crate::router::some_match;
use crate::trace::TraceRecord;
use crate::trace::capture_body;
use crate::trace::spec_capture;

verus! {

/// The pipeline's configured knobs, fixed at build time.
pub struct PipelineConfig {
    /// Bodies at or below this many bytes are never compressed.
    pub compression_threshold: usize,
    /// Trace snapshots keep at most this many bytes of a body.
    pub capture_limit: usize,
    /// The cross-origin allow-list.
    pub cors: CorsConfig,
}

/// Per-request metadata, created when a request enters the pipeline and read,
/// never changed, by every later stage.
pub struct RequestContext {
    /// The correlation token: the inbound one when the client sent one,
    /// otherwise the freshly generated one.
    pub request_id: String,
    /// The span's bounded snapshot of the request body.
    pub request_snapshot: Vec<u8>,
}

/// The id a request is processed under: an inbound correlation id is reused,
/// otherwise the fresh token is assigned.
pub open spec fn chosen_id(hs: Seq<Header>, fresh: Seq<char>) -> Seq<char> {
    if has_name(hs, "x-request-id"@) {
        values_of(hs, "x-request-id"@)[0]
    } else {
        fresh
    }
}

/// Open the pipeline for one request: pick the request id and open the span.
/// `fresh_id` is the unique, unguessable token the caller generated for this
/// request; it is used only when the request carries no inbound id.
pub fn enter(req: &Request, fresh_id: &str, capture_limit: usize) -> (ctx: RequestContext)
    ensures
        ctx.request_id@ == chosen_id(req.headers@, fresh_id@),
        ctx.request_snapshot@ == spec_capture(req.body@, capture_limit as int),
{
    let id: String = match first_value(&req.headers, "x-request-id") {
        Some(v) => v,
        None => fresh_id.to_owned(),
    };
    RequestContext { request_id: id, request_snapshot: capture_body(&req.body, capture_limit) }
}

/// What the gating stages decide before any handler runs: either the named
/// handler may be invoked, or the pipeline synthesizes the response itself.
pub enum Gate {
    Handle(u64),
    Synthesize(Response),
}

/// A request passes on to routing when it is no pre-flight and its origin,
/// if it names one, is on the allow-list.
pub open spec fn gate_open(allow: Seq<String>, req: Request) -> bool {
    &&& req.method != Method::Options
    &&& (!has_name(req.headers@, "origin"@) || origin_allowed(
        allow,
        values_of(req.headers@, "origin"@)[0],
    ))
}

/// The header names the stages write are pairwise distinct.
proof fn lemma_distinct_names()
    ensures
        "x-request-id"@ != "content-encoding"@,
        "x-request-id"@ != "access-control-allow-origin"@,
        "content-encoding"@ != "access-control-allow-origin"@,
        "access-control-allow-methods"@ != "access-control-allow-origin"@,
        "access-control-allow-headers"@ != "access-control-allow-origin"@,
        "access-control-allow-methods"@ != "access-control-allow-headers"@,
        "access-control-allow-methods"@ != "x-request-id"@,
        "access-control-allow-headers"@ != "x-request-id"@,
        "access-control-allow-methods"@ != "content-encoding"@,
        "access-control-allow-headers"@ != "content-encoding"@,
{
    reveal_strlit("x-request-id");
    reveal_strlit("content-encoding");
    reveal_strlit("access-control-allow-origin");
    reveal_strlit("access-control-allow-methods");
    reveal_strlit("access-control-allow-headers");
    assert("x-request-id"@.len() == 12);
    assert("content-encoding"@.len() == 16);
    assert("access-control-allow-origin"@.len() == 27);
    assert("access-control-allow-methods"@.len() == 28);
    assert("access-control-allow-headers"@.len() == 28);
    assert("access-control-allow-methods"@[21] == 'm');
    assert("access-control-allow-headers"@[21] == 'h');
}

/// Law: request-id propagation is idempotent. Every response carries exactly
/// one request id (`finish`'s contract); by this lemma that id is the inbound
/// correlation id whenever the request supplied one, and the freshly
/// generated token otherwise.
pub proof fn lemma_request_id_propagation(hs: Seq<Header>, fresh: Seq<char>)
    ensures
        has_name(hs, "x-request-id"@) ==> chosen_id(hs, fresh) == values_of(
            hs,
            "x-request-id"@,
        )[0],
        !has_name(hs, "x-request-id"@) ==> chosen_id(hs, fresh) == fresh,
{
}

/// Run the stages that precede the handler. A pre-flight request is answered
/// here and never reaches a handler; a disallowed origin is rejected; an
/// unknown path or a known path under the wrong method is answered here too.
pub fn route_and_gate(cfg: &PipelineConfig, router: &Router, req: &Request) -> (g: Gate)
    ensures
        req.method == Method::Options ==> (g matches Gate::Synthesize(r) && r.status == 204
            && r.body@.len() == 0 && values_of(r.headers@, "access-control-allow-methods"@)
            == seq!["GET, POST, OPTIONS"@] && values_of(
            r.headers@,
            "access-control-allow-headers"@,
        ) == seq!["content-type"@] && values_of(r.headers@, "access-control-allow-origin"@).len()
            == 0 && values_of(r.headers@, "x-request-id"@).len() == 0 && values_of(
            r.headers@,
            "content-encoding"@,
        ).len() == 0),
        req.method != Method::Options && has_name(req.headers@, "origin"@) && !origin_allowed(
            cfg.cors.allowed_origins@,
            values_of(req.headers@, "origin"@)[0],
        ) ==> (g matches Gate::Synthesize(r) && r.status == 403 && r.body@.len() == 0 && values_of(
            r.headers@,
            "access-control-allow-origin"@,
        ).len() == 0 && values_of(r.headers@, "x-request-id"@).len() == 0 && values_of(
            r.headers@,
            "content-encoding"@,
        ).len() == 0),
        gate_open(cfg.cors.allowed_origins@, *req) && some_match(
            router.routes@,
            req.method,
            req.path@,
        ) ==> (g matches Gate::Handle(h) && match_at_some(router.routes@, req.method, req.path@, h)),
        gate_open(cfg.cors.allowed_origins@, *req) && !path_known(router.routes@, req.path@) ==> (
        g matches Gate::Synthesize(r) && r.status == 404 && values_of(
            r.headers@,
            "access-control-allow-origin"@,
        ).len() == 0 && values_of(r.headers@, "x-request-id"@).len() == 0 && values_of(
            r.headers@,
            "content-encoding"@,
        ).len() == 0),
        gate_open(cfg.cors.allowed_origins@, *req) && path_known(router.routes@, req.path@)
            && !some_match(router.routes@, req.method, req.path@) ==> (g matches Gate::Synthesize(
            r,
        ) && r.status == 405 && values_of(r.headers@, "access-control-allow-origin"@).len() == 0
            && values_of(r.headers@, "x-request-id"@).len() == 0 && values_of(
            r.headers@,
            "content-encoding"@,
        ).len() == 0),
        g matches Gate::Handle(h) ==> gate_open(cfg.cors.allowed_origins@, *req) && match_at_some(
            router.routes@,
            req.method,
            req.path@,
            h,
        ),
{
    proof {
        lemma_distinct_names();
        lemma_values_empty("access-control-allow-origin"@);
        lemma_values_empty("x-request-id"@);
        lemma_values_empty("content-encoding"@);
        lemma_values_empty("access-control-allow-methods"@);
        lemma_values_empty("access-control-allow-headers"@);
    }
    if req.method == Method::Options {
        let mut headers: Vec<Header> = Vec::new();
        set_header(&mut headers, "access-control-allow-methods", "GET, POST, OPTIONS");
        set_header(&mut headers, "access-control-allow-headers", "content-type");
        return Gate::Synthesize(Response { status: 204, headers, body: Vec::new() });
    }
    match first_value(&req.headers, "origin") {
        Some(o) => {
            if !cfg.cors.is_allowed(o.as_str()) {
                return Gate::Synthesize(
                    Response { status: 403, headers: Vec::new(), body: Vec::new() },
                );
            }
        },
        None => {},
    }
    match router.dispatch(req.method, req.path.as_str()) {
        crate::router::RouteOutcome::Found(h) => Gate::Handle(h),
        crate::router::RouteOutcome::NotFound => Gate::Synthesize(
            Response { status: 404, headers: Vec::new(), body: Vec::new() },
        ),
        crate::router::RouteOutcome::MethodNotAllowed => Gate::Synthesize(
            Response { status: 405, headers: Vec::new(), body: Vec::new() },
        ),
    }
}

/// Run the stages that follow the handler, innermost first: compression over
/// the materialized body, the CORS echo, and request-ID propagation last, so
/// the response carries exactly one request id — the context's — whatever the
/// handler or an earlier stage left behind. The span closes here with
/// snapshots bounded by the capture limit; the response body is recorded
/// before compression.
pub fn finish(cfg: &PipelineConfig, ctx: &RequestContext, req: &Request, resp: Response) -> (out: (
    Response,
    TraceRecord,
))
    ensures
        out.0.status == resp.status,
        values_of(out.0.headers@, "x-request-id"@) == seq![ctx.request_id@],
        compression_due(
            cfg.compression_threshold as int,
            req.headers@,
            resp.headers@,
            resp.body@,
        ) ==> out.0.body@ == gzip_of(resp.body@) && values_of(out.0.headers@, "content-encoding"@)
            == seq!["gzip"@],
        !compression_due(
            cfg.compression_threshold as int,
            req.headers@,
            resp.headers@,
            resp.body@,
        ) ==> out.0.body@ == resp.body@ && values_of(out.0.headers@, "content-encoding"@)
            == values_of(resp.headers@, "content-encoding"@),
        has_name(req.headers@, "origin"@) && origin_allowed(
            cfg.cors.allowed_origins@,
            values_of(req.headers@, "origin"@)[0],
        ) ==> values_of(out.0.headers@, "access-control-allow-origin"@) == seq![
            values_of(req.headers@, "origin"@)[0],
        ],
        !(has_name(req.headers@, "origin"@) && origin_allowed(
            cfg.cors.allowed_origins@,
            values_of(req.headers@, "origin"@)[0],
        )) ==> values_of(out.0.headers@, "access-control-allow-origin"@) == values_of(
            resp.headers@,
            "access-control-allow-origin"@,
        ),
        out.1.request_id@ == ctx.request_id@,
        out.1.request_body@ == ctx.request_snapshot@,
        out.1.response_body@ == spec_capture(resp.body@, cfg.capture_limit as int),
        out.1.status == resp.status,
{
    proof {
        lemma_distinct_names();
    }
    let mut r = resp;
    let recorded = capture_body(&r.body, cfg.capture_limit);
    let ghost before = r;
    compression_stage(cfg.compression_threshold, &req.headers, &mut r);
    proof {
        if compression_due(
            cfg.compression_threshold as int,
            req.headers@,
            before.headers@,
            before.body@,
        ) {
            assert(values_of(before.headers@, "content-encoding"@).len() == 0);
            assert(values_of(r.headers@, "content-encoding"@) =~= seq!["gzip"@]);
            assert(values_of(r.headers@, "access-control-allow-origin"@) == values_of(
                before.headers@,
                "access-control-allow-origin"@,
            ));
        }
    }
    match first_value(&req.headers, "origin") {
        Some(o) => {
            if cfg.cors.is_allowed(o.as_str()) {
                set_header(&mut r.headers, "access-control-allow-origin", o.as_str());
            }
        },
        None => {},
    }
    set_header(&mut r.headers, "x-request-id", ctx.request_id.as_str());
    let record = TraceRecord {
        request_id: ctx.request_id.clone(),
        request_body: capture_body(&ctx.request_snapshot, ctx.request_snapshot.len()),
        response_body: recorded,
        status: r.status,
    };
    (r, record)
}

/// One whole exchange through the pipeline, for a handler whose response is
/// already at hand: that response is consulted only when routing admits its
/// handler; the returned id names that handler, and is `None` exactly when
/// the pipeline synthesized the answer.
pub fn complete_exchange(
    cfg: &PipelineConfig,
    router: &Router,
    req: &Request,
    fresh_id: &str,
    handler_resp: Response,
) -> (out: (Response, TraceRecord, Option<u64>))
    ensures
        values_of(out.0.headers@, "x-request-id"@) == seq![chosen_id(req.headers@, fresh_id@)],
        out.1.request_id@ == chosen_id(req.headers@, fresh_id@),
        req.method == Method::Options ==> out.2 is None && out.0.status == 204,
        req.method == Method::Options && has_name(req.headers@, "origin"@) && origin_allowed(
            cfg.cors.allowed_origins@,
            values_of(req.headers@, "origin"@)[0],
        ) ==> values_of(out.0.headers@, "access-control-allow-origin"@) == seq![
            values_of(req.headers@, "origin"@)[0],
        ],
        req.method == Method::Options && !(has_name(req.headers@, "origin"@) && origin_allowed(
            cfg.cors.allowed_origins@,
            values_of(req.headers@, "origin"@)[0],
        )) ==> values_of(out.0.headers@, "access-control-allow-origin"@).len() == 0,
        req.method != Method::Options && has_name(req.headers@, "origin"@) && !origin_allowed(
            cfg.cors.allowed_origins@,
            values_of(req.headers@, "origin"@)[0],
        ) ==> out.0.status == 403 && out.2 is None,
        gate_open(cfg.cors.allowed_origins@, *req) && !path_known(router.routes@, req.path@)
            ==> out.0.status == 404 && out.2 is None,
        gate_open(cfg.cors.allowed_origins@, *req) && path_known(router.routes@, req.path@)
            && !some_match(router.routes@, req.method, req.path@) ==> out.0.status == 405 && out.2
            is None,
        gate_open(cfg.cors.allowed_origins@, *req) && some_match(
            router.routes@,
            req.method,
            req.path@,
        ) ==> out.2 is Some,
        out.2 matches Some(h) ==> match_at_some(router.routes@, req.method, req.path@, h)
            && gate_open(cfg.cors.allowed_origins@, *req) && out.0.status == handler_resp.status,
        out.2 is Some && compression_due(
            cfg.compression_threshold as int,
            req.headers@,
            handler_resp.headers@,
            handler_resp.body@,
        ) ==> out.0.body@ == gzip_of(handler_resp.body@) && values_of(
            out.0.headers@,
            "content-encoding"@,
        ) == seq!["gzip"@],
        out.2 is Some && !compression_due(
            cfg.compression_threshold as int,
            req.headers@,
            handler_resp.headers@,
            handler_resp.body@,
        ) ==> out.0.body@ == handler_resp.body@,
{
    let ctx = enter(req, fresh_id, cfg.capture_limit);
    match route_and_gate(cfg, router, req) {
        Gate::Synthesize(r0) => {
            let (r, t) = finish(cfg, &ctx, req, r0);
            (r, t, None)
        },
        Gate::Handle(h) => {
            let (r, t) = finish(cfg, &ctx, req, handler_resp);
            (r, t, Some(h))
        },
    }
}

} // verus!
