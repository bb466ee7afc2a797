use vstd::prelude::*;

verus! {

/// Upper bound on the time a handler may take, in seconds.
pub const REQUEST_TIMEOUT_SECS: u64 = 30;

/// Status of the response sent in place of a handler's that ran out of time.
pub const TIMEOUT_STATUS: u16 = 408;

/// Name of the header that carries a request's identifier.
pub fn request_id_header() -> (r: &'static str)
    ensures
        r@ == "x-request-id"@,
{
    "x-request-id"
}

/// What the pipeline reads of a request as it comes in.
pub struct InboundRequest {
    pub method: String,
    pub target: String,
    pub version: String,
    /// The identifier header, if the client sent one.
    pub request_id: Option<String>,
}

/// A request once it has an identifier; the span opened for it records these fields.
pub struct RequestContext {
    pub request_id: String,
    pub method: String,
    pub target: String,
    pub version: String,
}

/// How the handler behind the pipeline ended.
#[derive(Clone, Copy, PartialEq, Eq, Structural, Debug)]
pub enum HandlerOutcome {
    /// It answered in time, with this status.
    Completed { status: u16 },
    /// It was still running when the time was up, and was cancelled.
    TimedOut,
}

/// What the pipeline puts on the outbound response.
pub struct ResponseMeta {
    pub status: u16,
    /// Value of the identifier header on the response.
    pub request_id: String,
}

/// What the span records when the response is complete.
pub struct SpanClose {
    pub request_id: String,
    pub status: u16,
    pub latency_ms: u64,
}

/// The outcome of the pipeline for one request.
pub struct Completion {
    pub response: ResponseMeta,
    pub span: SpanClose,
}

/// The identifier that a request carries past the request-ID stage.
pub open spec fn chosen_id(supplied: Option<String>, fresh: String) -> Seq<char> {
    match supplied {
        Some(s) => s@,
        None => fresh@,
    }
}

/// The status the client sees.
pub open spec fn response_status(outcome: HandlerOutcome) -> u16 {
    match outcome {
        HandlerOutcome::Completed { status } => status,
        HandlerOutcome::TimedOut => TIMEOUT_STATUS,
    }
}

/// `ctx` is what the request-ID stage makes of `req`, given `fresh` as the new identifier.
pub open spec fn accepted(req: InboundRequest, fresh: String, ctx: RequestContext) -> bool {
    &&& ctx.request_id@ == chosen_id(req.request_id, fresh)
    &&& ctx.method@ == req.method@
    &&& ctx.target@ == req.target@
    &&& ctx.version@ == req.version@
}

/// `c` is what the later stages make of the request `ctx`, whose handler ended with `outcome`.
pub open spec fn finished(ctx: RequestContext, outcome: HandlerOutcome, latency_ms: u64, c: Completion) -> bool {
    &&& c.response.status == response_status(outcome)
    &&& c.response.request_id@ == ctx.request_id@
    &&& c.span.request_id@ == ctx.request_id@
    &&& c.span.status == c.response.status
    &&& c.span.latency_ms == latency_ms
}

/// Whether `c` is a lowercase hexadecimal digit.
pub open spec fn is_lower_hex(c: char) -> bool {
    ('0' <= c && c <= '9') || ('a' <= c && c <= 'f')
}

/// The hyphenated text of a version-4 UUID: lowercase hex digits in groups of
/// 8-4-4-4-12, the version digit `4` first in the third group and the variant digit
/// (one of `8`, `9`, `a`, `b`) first in the fourth.
pub open spec fn is_uuid_v4_text(s: Seq<char>) -> bool {
    &&& s.len() == 36
    &&& forall|i: int| 0 <= i < 36 ==> (if i == 8 || i == 13 || i == 18 || i == 23 {
            #[trigger] s[i] == '-'
        } else {
            is_lower_hex(s[i])
        })
    &&& s[14] == '4'
    &&& (s[19] == '8' || s[19] == '9' || s[19] == 'a' || s[19] == 'b')
}

/// Relies on uuid's `Uuid::new_v4`, written by `hyphenated()` in lowercase hex with
/// hyphens between the groups; `new_v4` sets the version and variant bits.
/// It panics only when the system's random source fails.
#[verifier::external_body]
fn new_request_id() -> (r: String)
    ensures
        is_uuid_v4_text(r@),
{
    uuid::Uuid::new_v4().hyphenated().to_string()
}

/// The request-ID stage, with `fresh` as the identifier to use where the client sent none.
pub fn accept_request(req: InboundRequest, fresh: String) -> (ctx: RequestContext)
    ensures
        accepted(req, fresh, ctx),
{
    let InboundRequest { method, target, version, request_id } = req;
    let id = match request_id {
        Some(s) => s,
        None => fresh,
    };
    RequestContext { request_id: id, method, target, version }
}

/// The request-ID stage: keeps the client's identifier, else generates one, once.
pub fn begin_request(req: InboundRequest) -> (ctx: RequestContext)
    ensures
        req.request_id is Some ==> ctx.request_id@ == req.request_id->0@,
        req.request_id is None ==> is_uuid_v4_text(ctx.request_id@),
        ctx.method@ == req.method@,
        ctx.target@ == req.target@,
        ctx.version@ == req.version@,
{
    if req.request_id.is_some() {
        accept_request(req, String::new())
    } else {
        let fresh = new_request_id();
        accept_request(req, fresh)
    }
}

/// The timeout stage: the handler's status if it answered in time, else the timeout status.
pub fn timeout_stage(outcome: HandlerOutcome) -> (status: u16)
    ensures
        status == response_status(outcome),
{
    match outcome {
        HandlerOutcome::Completed { status } => status,
        HandlerOutcome::TimedOut => TIMEOUT_STATUS,
    }
}

/// The stages after the handler: timeout, identifier on the response, span close.
pub fn finish_request(ctx: &RequestContext, outcome: HandlerOutcome, latency_ms: u64) -> (c: Completion)
    ensures
        finished(*ctx, outcome, latency_ms, c),
{
    let status = timeout_stage(outcome);
    let response = ResponseMeta { status, request_id: ctx.request_id.clone() };
    let span = SpanClose { request_id: ctx.request_id.clone(), status, latency_ms };
    Completion { response, span }
}

/// The response and the span of a request carry the same identifier. It is the client's
/// own, unchanged, where the client sent one, and the fresh one otherwise.
pub proof fn lemma_request_id_echoed(
    req: InboundRequest,
    fresh: String,
    ctx: RequestContext,
    outcome: HandlerOutcome,
    latency_ms: u64,
    c: Completion,
)
    requires
        accepted(req, fresh, ctx),
        finished(ctx, outcome, latency_ms, c),
    ensures
        c.response.request_id@ == c.span.request_id@,
        req.request_id is Some ==> c.response.request_id@ == req.request_id->0@,
        req.request_id is None ==> c.response.request_id@ == fresh@,
        req.request_id is None && fresh@.len() > 0 ==> c.response.request_id@.len() > 0,
{
}

/// A request's response depends on its own handler alone: a request that answered in time
/// keeps its status whatever any other request did, and one that ran out of time gets the
/// timeout status.
pub proof fn lemma_timeout_isolated(
    ctx1: RequestContext,
    o1: HandlerOutcome,
    l1: u64,
    c1: Completion,
    ctx2: RequestContext,
    o2: HandlerOutcome,
    l2: u64,
    c2: Completion,
)
    requires
        finished(ctx1, o1, l1, c1),
        finished(ctx2, o2, l2, c2),
        o2 is TimedOut,
    ensures
        c2.response.status == TIMEOUT_STATUS,
        o1 is Completed ==> c1.response.status == o1->status,
{
}

} // verus!
