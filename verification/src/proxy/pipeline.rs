use vstd::prelude::*;
use vstd::string::*;
use crate::intercept::request::RequestInterceptor;
use crate::intercept::response::ResponseInterceptor;
use crate::proxy::message::{
    names_match,
    record_view,
    same_name,
    Header,
    HttpRequest,
    HttpResponse,
    HttpVersion,
    LogRecord,
};
use crate::proxy::target::{
    destination_of,
    host_parts,
    parse_target,
    parsed_uri,
    resolve_origin,
    Destination,
    DestinationView,
    OriginTarget,
};
use crate::utils::error::FerrumError;

verus! {

/// The status of the answer to a request that is addressed to the proxy itself.
pub const ACCEPTED_AT_PROXY: u16 = 200;

/// The status of the answer to a request that cannot be read or goes nowhere.
pub const BAD_REQUEST: u16 = 400;

/// The status of the answer to a request that an interceptor turned down.
pub const FORBIDDEN: u16 = 403;

/// The status of the answer where the origin cannot be reached or does not
/// speak HTTP.
pub const BAD_GATEWAY: u16 = 502;

/// The status of the answer where the origin does not answer in time.
pub const GATEWAY_TIMEOUT: u16 = 504;

/// Whether a header is meant for one connection only and is not handed on.
pub open spec fn is_hop_by_hop(name: Seq<char>) -> bool {
    ||| names_match(name, "connection"@)
    ||| names_match(name, "keep-alive"@)
    ||| names_match(name, "proxy-authenticate"@)
    ||| names_match(name, "proxy-authorization"@)
    ||| names_match(name, "proxy-connection"@)
    ||| names_match(name, "te"@)
    ||| names_match(name, "trailer"@)
    ||| names_match(name, "transfer-encoding"@)
    ||| names_match(name, "upgrade"@)
}

/// The headers that are handed on to the origin: all but the hop-by-hop ones,
/// in their order.
pub open spec fn end_to_end(headers: Seq<Header>) -> Seq<Header> {
    headers.filter(|h: Header| !is_hop_by_hop(h.name@))
}

/// Decides whether a header is a hop-by-hop header.
pub fn hop_by_hop(name: &str) -> (hop: bool)
    ensures
        hop == is_hop_by_hop(name@),
{
    same_name(name, "connection") || same_name(name, "keep-alive") || same_name(
        name,
        "proxy-authenticate",
    ) || same_name(name, "proxy-authorization") || same_name(name, "proxy-connection")
        || same_name(name, "te") || same_name(name, "trailer") || same_name(
        name,
        "transfer-encoding",
    ) || same_name(name, "upgrade")
}

/// Copies the headers that are handed on to the origin.
pub fn strip_hop_by_hop(headers: &Vec<Header>) -> (kept: Vec<Header>)
    ensures
        kept@ == end_to_end(headers@),
{
    let mut kept: Vec<Header> = Vec::new();
    let mut i: usize = 0;
    while i < headers.len()
        invariant
            i <= headers@.len(),
            kept@ == end_to_end(headers@.take(i as int)),
        decreases headers@.len() - i,
    {
        proof {
            reveal(Seq::filter);
            assert(headers@.take(i + 1).drop_last() == headers@.take(i as int));
        }
        if !hop_by_hop(headers[i].name.as_str()) {
            kept.push(Header { name: headers[i].name.clone(), value: headers[i].value.clone() });
        }
        i = i + 1;
    }
    assert(headers@.take(i as int) == headers@);
    kept
}

/// The answer that the proxy makes up itself: the status, no headers, and the
/// reason as body.
pub open spec fn synthesized(response: HttpResponse, status: u16, reason: Seq<char>) -> bool {
    &&& response.status == status
    &&& response.version == HttpVersion::Http11
    &&& response.headers@.len() == 0
    &&& response.body@ == vstd::utf8::encode_utf8(reason)
}

/// Makes up an answer with the given status and reason.
pub fn synthesize(status: u16, reason: &str) -> (response: HttpResponse)
    ensures
        synthesized(response, status, reason@),
{
    HttpResponse {
        status,
        version: HttpVersion::Http11,
        headers: Vec::new(),
        body: reason.as_bytes_vec(),
    }
}

/// What the pipeline does with a request once it is read.
#[derive(Debug)]
pub enum Step {
    /// Send the request to the origin.
    Forward { origin: OriginTarget, request: HttpRequest },
    /// Answer the client at once, without asking any origin.
    Respond(HttpResponse),
}

/// A step, and what the request interceptor reports of the request.
#[derive(Debug)]
pub struct Planned {
    pub step: Step,
    pub record: Option<LogRecord>,
}

/// Whether `forwarded` is `request` as it is sent to the origin: the same in
/// all but its headers, of which the hop-by-hop ones are left out.
pub open spec fn forwards(forwarded: HttpRequest, request: HttpRequest) -> bool {
    &&& forwarded.method == request.method
    &&& forwarded.target == request.target
    &&& forwarded.version == request.version
    &&& forwarded.body == request.body
    &&& forwarded.headers@ == end_to_end(request.headers@)
}

/// Whether `step` is what is done with a request that goes to the given
/// destination. To an origin it is forwarded without its hop-by-hop headers.
/// One addressed to the proxy itself is acknowledged with `ACCEPTED_AT_PROXY`. One that
/// goes nowhere gets `BAD_REQUEST`.
pub open spec fn routed(step: Step, request: HttpRequest, destination: DestinationView) -> bool {
    match destination {
        DestinationView::Origin(o) => step matches Step::Forward { origin: to, request: forwarded }
            && to@ == o && forwards(forwarded, request),
        DestinationView::Proxy => step matches Step::Respond(response) && synthesized(
            response,
            ACCEPTED_AT_PROXY,
            "Ferrum Proxy - Request received and logged"@,
        ),
        DestinationView::Unknown => step matches Step::Respond(response) && synthesized(
            response,
            BAD_REQUEST,
            "Bad Request"@,
        ),
    }
}

/// Whether `step` is what is done on what the interceptor decided: a request
/// that it passed is routed to its destination, one that it turned down is
/// answered with `FORBIDDEN` and reaches no origin.
pub open spec fn planned_for(step: Step, passed: Result<HttpRequest, FerrumError>, tunnelled: bool)
    -> bool {
    match passed {
        Ok(request) => routed(
            step,
            request,
            destination_of(parsed_uri(request.target@), host_parts(request.headers@), tunnelled),
        ),
        Err(_) => step matches Step::Respond(response) && synthesized(
            response,
            FORBIDDEN,
            "Forbidden"@,
        ),
    }
}

/// Routes a request whose destination has been decided: to the origin,
/// without its hop-by-hop headers, or back to the client with the answer of
/// the proxy itself.
pub fn route(request: HttpRequest, destination: Destination) -> (step: Step)
    ensures
        routed(step, request, destination@),
        destination matches Destination::Origin(o) ==> (step matches Step::Forward {
            origin: to,
            request: _,
        } && to == o),
{
    match destination {
        Destination::Origin(o) => {
            let headers = strip_hop_by_hop(&request.headers);
            let forwarded = HttpRequest {
                method: request.method,
                target: request.target,
                version: request.version,
                headers,
                body: request.body,
            };
            Step::Forward { origin: o, request: forwarded }
        },
        Destination::Proxy => Step::Respond(
            synthesize(ACCEPTED_AT_PROXY, "Ferrum Proxy - Request received and logged"),
        ),
        Destination::Unknown => Step::Respond(synthesize(BAD_REQUEST, "Bad Request")),
    }
}

/// Plans the exchange on what the interceptor decided: a request that passed
/// has its destination resolved and is routed; a request that was turned down
/// is answered with `FORBIDDEN`.
pub fn plan_intercepted(passed: Result<HttpRequest, FerrumError>, tunnelled: bool) -> (step: Step)
    ensures
        planned_for(step, passed, tunnelled),
{
    match passed {
        Ok(request) => {
            let destination = resolve_origin(&request, tunnelled);
            route(request, destination)
        },
        Err(_) => Step::Respond(synthesize(FORBIDDEN, "Forbidden")),
    }
}

/// Whether the request was turned away before any interceptor saw it: the
/// client gets `BAD_REQUEST`, and nothing is reported.
pub open spec fn turned_away(planned: Planned) -> bool {
    planned.record is None && (planned.step matches Step::Respond(response) && synthesized(
        response,
        BAD_REQUEST,
        "Bad Request"@,
    ))
}

/// Whether what was read from the client is malformed: it could not be
/// parsed as a request, or its target is no URI.
pub open spec fn is_malformed(incoming: Option<HttpRequest>) -> bool {
    match incoming {
        None => true,
        Some(request) => parsed_uri(request.target@) is None,
    }
}

/// Plans the exchange for what was read from the client. A malformed request
/// (`None` stands for one that could not be parsed; one whose target is no
/// URI is malformed too) is answered with `BAD_REQUEST`, never reaches the
/// interceptor and is not reported. Any other request passes the interceptor
/// unchanged and is routed to its destination; the record is what the
/// interceptor reports of it, which is nothing while it is disabled.
pub fn plan_exchange(interceptor: &RequestInterceptor, incoming: Option<HttpRequest>, tunnelled: bool) -> (planned: Planned)
    ensures
        is_malformed(incoming) ==> turned_away(planned),
        !is_malformed(incoming) ==> record_view(planned.record) == interceptor.spec_observe(
            &incoming->0,
        ) && planned_for(planned.step, Ok(incoming->0), tunnelled),
        !interceptor.is_enabled() ==> planned.record is None,
{
    match incoming {
        None => Planned { step: Step::Respond(synthesize(BAD_REQUEST, "Bad Request")), record: None },
        Some(request) => {
            if parse_target(&request).is_none() {
                return Planned {
                    step: Step::Respond(synthesize(BAD_REQUEST, "Bad Request")),
                    record: None,
                };
            }
            let record = interceptor.observe(&request);
            let passed = interceptor.intercept(request);
            Planned { step: plan_intercepted(passed, tunnelled), record }
        },
    }
}

/// As `plan_exchange`, with a transformation of the caller's that the
/// interceptor runs on the request while it is enabled: the exchange is
/// planned on what the interceptor hands back. The transformation never
/// runs on a malformed request.
pub fn plan_exchange_with<F: FnOnce(HttpRequest) -> Result<HttpRequest, FerrumError>>(
    interceptor: &RequestInterceptor,
    incoming: Option<HttpRequest>,
    tunnelled: bool,
    transform: F,
) -> (planned: Planned)
    requires
        incoming matches Some(request) ==> (interceptor.is_enabled() ==> call_requires(
            transform,
            (request,),
        )),
    ensures
        is_malformed(incoming) ==> turned_away(planned),
        !is_malformed(incoming) ==> record_view(planned.record) == interceptor.spec_observe(
            &incoming->0,
        ) && exists|passed: Result<HttpRequest, FerrumError>|
            interceptor.passes_with(incoming->0, transform, passed) && #[trigger] planned_for(
                planned.step,
                passed,
                tunnelled,
            ),
        !interceptor.is_enabled() ==> planned.record is None,
{
    match incoming {
        None => Planned { step: Step::Respond(synthesize(BAD_REQUEST, "Bad Request")), record: None },
        Some(request) => {
            if parse_target(&request).is_none() {
                return Planned {
                    step: Step::Respond(synthesize(BAD_REQUEST, "Bad Request")),
                    record: None,
                };
            }
            let record = interceptor.observe(&request);
            let passed = interceptor.intercept_with(request, transform);
            let step = plan_intercepted(passed, tunnelled);
            assert(planned_for(step, passed, tunnelled));
            Planned { step, record }
        },
    }
}

/// How asking the origin ended.
#[derive(Debug)]
pub enum OriginOutcome {
    /// The origin answered.
    Answered(HttpResponse),
    /// No connection to the origin could be made.
    Unreachable,
    /// The origin did not connect or answer within the time allowed.
    TimedOut,
    /// What the origin sent is no HTTP response.
    NotHttp,
}

/// The answer for the client, and what the response interceptor reports of it.
#[derive(Debug)]
pub struct Finished {
    pub response: HttpResponse,
    pub record: Option<LogRecord>,
}

/// The answer that stands for an outcome: the origin's own, or the one the
/// proxy makes up where the origin gave none.
pub open spec fn answers(response: HttpResponse, outcome: OriginOutcome) -> bool {
    match outcome {
        OriginOutcome::Answered(answer) => response == answer,
        OriginOutcome::TimedOut => synthesized(response, GATEWAY_TIMEOUT, "Gateway Timeout"@),
        _ => synthesized(response, BAD_GATEWAY, "Bad Gateway"@),
    }
}

/// Turns the outcome of asking the origin into an answer: the origin's own,
/// or `GATEWAY_TIMEOUT` after a timeout and `BAD_GATEWAY` otherwise.
pub fn answer_for(outcome: OriginOutcome) -> (response: HttpResponse)
    ensures
        answers(response, outcome),
{
    match outcome {
        OriginOutcome::Answered(response) => response,
        OriginOutcome::TimedOut => synthesize(GATEWAY_TIMEOUT, "Gateway Timeout"),
        _ => synthesize(BAD_GATEWAY, "Bad Gateway"),
    }
}

/// Whether `response` is `answer` as it goes back to the client: the same
/// status, version and body, and the headers but for the hop-by-hop ones,
/// which speak of the connection to the origin and not of this one.
pub open spec fn relays(response: HttpResponse, answer: HttpResponse) -> bool {
    &&& response.status == answer.status
    &&& response.version == answer.version
    &&& response.body == answer.body
    &&& response.headers@ == end_to_end(answer.headers@)
}

/// Whether `response` goes to the client on what the interceptor decided: the
/// answer it passed, relayed, or `BAD_GATEWAY` where it turned the answer
/// down.
pub open spec fn delivered(response: HttpResponse, passed: Result<HttpResponse, FerrumError>)
    -> bool {
    match passed {
        Ok(answer) => relays(response, answer),
        Err(_) => synthesized(response, BAD_GATEWAY, "Bad Gateway"@),
    }
}

/// Whether `response` ends an exchange with the given outcome where no
/// transformation is run: the origin's answer, relayed, or the answer that
/// the proxy makes up where the origin gave none.
pub open spec fn finishes(response: HttpResponse, outcome: OriginOutcome) -> bool {
    match outcome {
        OriginOutcome::Answered(answer) => relays(response, answer),
        OriginOutcome::TimedOut => synthesized(response, GATEWAY_TIMEOUT, "Gateway Timeout"@),
        _ => synthesized(response, BAD_GATEWAY, "Bad Gateway"@),
    }
}

/// Decides what goes to the client on what the interceptor decided.
pub fn deliver(passed: Result<HttpResponse, FerrumError>) -> (response: HttpResponse)
    ensures
        delivered(response, passed),
{
    match passed {
        Ok(answer) => {
            let headers = strip_hop_by_hop(&answer.headers);
            HttpResponse {
                status: answer.status,
                version: answer.version,
                headers,
                body: answer.body,
            }
        },
        Err(_) => synthesize(BAD_GATEWAY, "Bad Gateway"),
    }
}

/// Ends an exchange. The origin's answer goes back to the client with its
/// status and body, and with its headers but for the hop-by-hop ones. Where
/// the origin gave none, the client gets `GATEWAY_TIMEOUT` after a timeout
/// and `BAD_GATEWAY` otherwise. The record is what the interceptor reports of
/// the answer, which is nothing while it is disabled.
pub fn finish_exchange(interceptor: &ResponseInterceptor, outcome: OriginOutcome) -> (finished:
    Finished)
    ensures
        record_view(finished.record) == interceptor.spec_observe(&finished.response),
        finishes(finished.response, outcome),
        !interceptor.is_enabled() ==> finished.record is None,
{
    let answer = answer_for(outcome);
    let record = interceptor.observe(&answer);
    let passed = interceptor.intercept(answer);
    proof {
        reveal(Seq::filter);
        assert(answer.headers@.len() == 0 ==> end_to_end(answer.headers@).len() == 0);
    }
    Finished { response: deliver(passed), record }
}

/// As `finish_exchange`, with a transformation of the caller's that the
/// interceptor runs on the answer while it is enabled: the client gets what
/// the interceptor hands back, relayed. The record is what the interceptor
/// reports of the answer before the transformation.
pub fn finish_exchange_with<F: FnOnce(HttpResponse) -> Result<HttpResponse, FerrumError>>(
    interceptor: &ResponseInterceptor,
    outcome: OriginOutcome,
    transform: F,
) -> (finished: Finished)
    requires
        interceptor.is_enabled() ==> forall|answer: HttpResponse| #[trigger]
            answers(answer, outcome) ==> call_requires(transform, (answer,)),
    ensures
        exists|answer: HttpResponse, passed: Result<HttpResponse, FerrumError>|
            {
                &&& answers(answer, outcome)
                &&& record_view(finished.record) == interceptor.spec_observe(&answer)
                &&& #[trigger] interceptor.passes_with(answer, transform, passed)
                &&& delivered(finished.response, passed)
            },
        !interceptor.is_enabled() ==> finished.record is None,
{
    let answer = answer_for(outcome);
    let record = interceptor.observe(&answer);
    let passed = interceptor.intercept_with(answer, transform);
    let response = deliver(passed);
    assert(interceptor.passes_with(answer, transform, passed));
    Finished { response, record }
}

} // verus!
