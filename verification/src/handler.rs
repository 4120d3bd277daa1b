//! The proxy handler shared by the four platform variants, and the
//! per-variant response mappings.

use vstd::prelude::*;
use vstd::string::StringExecFns;

use crate::message::FetchOutcome;
use crate::message::HandlerError;
use crate::message::HttpResponse;
use crate::message::InboundRequest;
use crate::message::ResponseModel;

verus! {

/// The fixed target of every outbound call.
pub open spec fn spec_target_url() -> Seq<char> {
    "https://www.rust-lang.org"@
}

/// The hardcoded URL every variant fetches.
pub fn target_url() -> (url: String)
    ensures
        url@ == spec_target_url(),
{
    "https://www.rust-lang.org".to_owned()
}

/// The address the container-serving variant binds its server to.
pub open spec fn spec_bind_address() -> Seq<char> {
    "0.0.0.0:3000"@
}

/// The hardcoded bind address of the container-serving variant.
pub fn bind_address() -> (addr: String)
    ensures
        addr@ == spec_bind_address(),
{
    "0.0.0.0:3000".to_owned()
}

/// The view of an optional `content-type` header value.
pub open spec fn spec_content_type(ct: Option<String>) -> Option<Seq<char>> {
    match ct {
        Option::Some(s) => Option::Some(s@),
        Option::None => Option::None,
    }
}

/// What every propagating variant owes: the fetched text passes through
/// verbatim with status 200 and the given `content-type`, and each failure
/// point collapses to its opaque error.
pub open spec fn spec_proxy(outcome: FetchOutcome, content_type: Option<Seq<char>>) -> Result<
    ResponseModel,
    HandlerError,
> {
    match outcome {
        FetchOutcome::Body(b) => Ok(
            ResponseModel { status: 200, content_type: content_type, body: b@ },
        ),
        FetchOutcome::FetchFailed(_) => Err(HandlerError::Fetch),
        FetchOutcome::DecodeFailed(_) => Err(HandlerError::Decode),
    }
}

/// Relates a handler's executable result to its model.
pub open spec fn result_models(
    r: Result<HttpResponse, HandlerError>,
    m: Result<ResponseModel, HandlerError>,
) -> bool {
    match (r, m) {
        (Ok(resp), Ok(model)) => resp@ == model,
        (Err(e), Err(me)) => e == me,
        _ => false,
    }
}

/// The shared fetch-and-respond step of the propagating variants.
fn proxy(outcome: FetchOutcome, content_type: Option<String>) -> (r: Result<
    HttpResponse,
    HandlerError,
>)
    ensures
        result_models(r, spec_proxy(outcome, spec_content_type(content_type))),
{
    match outcome {
        FetchOutcome::Body(body) => Ok(
            (HttpResponse { status: 200, content_type: content_type, body: body }),
        ),
        FetchOutcome::FetchFailed(_) => Err(HandlerError::Fetch),
        FetchOutcome::DecodeFailed(_) => Err(HandlerError::Decode),
    }
}

/// The function-runtime variant's answer: it sets `content-type: text/html`
/// explicitly and propagates failures. The inbound request does not enter it.
pub open spec fn spec_handle_function_runtime(
    inbound: InboundRequest,
    outcome: FetchOutcome,
) -> Result<ResponseModel, HandlerError> {
    spec_proxy(outcome, Option::Some("text/html"@))
}

/// Variant adapter for a generic function-as-a-service runtime: status 200
/// with an explicit `content-type: text/html` on success; each failure point
/// propagates as its opaque error.
pub fn handle_function_runtime(inbound: &InboundRequest, outcome: FetchOutcome) -> (r: Result<
    HttpResponse,
    HandlerError,
>)
    ensures
        result_models(r, spec_handle_function_runtime(*inbound, outcome)),
{
    proxy(outcome, Some("text/html".to_owned()))
}

/// The edge-worker variant's answer: status 200 with the body, no explicit
/// header, failures propagated. The inbound request does not enter it.
pub open spec fn spec_handle_edge_worker(inbound: InboundRequest, outcome: FetchOutcome) -> Result<
    ResponseModel,
    HandlerError,
> {
    spec_proxy(outcome, Option::None)
}

/// Variant adapter for an edge-worker runtime: status 200 with the fetched
/// text on success; each failure point propagates as its opaque error.
pub fn handle_edge_worker(inbound: &InboundRequest, outcome: FetchOutcome) -> (r: Result<
    HttpResponse,
    HandlerError,
>)
    ensures
        result_models(r, spec_handle_edge_worker(*inbound, outcome)),
{
    proxy(outcome, None)
}

/// The WebAssembly-component variant's answer: status 200 with the body,
/// failures propagated. The inbound request does not enter it.
pub open spec fn spec_handle_wasm_component(
    inbound: InboundRequest,
    outcome: FetchOutcome,
) -> Result<ResponseModel, HandlerError> {
    spec_proxy(outcome, Option::None)
}

/// Variant adapter for a WebAssembly HTTP component runtime: status 200 with
/// the fetched text on success; each failure point propagates as its opaque
/// error.
pub fn handle_wasm_component(inbound: &InboundRequest, outcome: FetchOutcome) -> (r: Result<
    HttpResponse,
    HandlerError,
>)
    ensures
        result_models(r, spec_handle_wasm_component(*inbound, outcome)),
{
    proxy(outcome, None)
}

/// The prefix of the container-serving variant's failure page.
pub open spec fn spec_failure_prefix() -> Seq<char> {
    "Server failed with "@
}

/// The container-serving variant's answer: it never propagates; the fetched
/// text passes through with status 200, and either failure point becomes a
/// 500 page carrying the failure's display text. The inbound request does not
/// enter it.
pub open spec fn spec_handle_error_page(
    inbound: InboundRequest,
    outcome: FetchOutcome,
) -> ResponseModel {
    match outcome {
        FetchOutcome::Body(b) => ResponseModel {
            status: 200,
            content_type: Option::None,
            body: b@,
        },
        FetchOutcome::FetchFailed(e) => ResponseModel {
            status: 500,
            content_type: Option::None,
            body: spec_failure_prefix() + e@,
        },
        FetchOutcome::DecodeFailed(e) => ResponseModel {
            status: 500,
            content_type: Option::None,
            body: spec_failure_prefix() + e@,
        },
    }
}

/// The 500 page the container-serving variant answers a failure with.
fn failure_page(display: String) -> (resp: HttpResponse)
    ensures
        resp@ == (ResponseModel {
            status: 500,
            content_type: Option::None,
            body: spec_failure_prefix() + display@,
        }),
{
    let mut body = "Server failed with ".to_owned();
    body.append(display.as_str());
    HttpResponse { status: 500, content_type: None, body }
}

/// Variant adapter for the container-based request-serving runtime: status
/// 200 with the fetched text on success; on either failure point, status 500
/// with the body `Server failed with <display text>`.
pub fn handle_error_page(inbound: &InboundRequest, outcome: FetchOutcome) -> (resp: HttpResponse)
    ensures
        resp@ == spec_handle_error_page(*inbound, outcome),
{
    match outcome {
        FetchOutcome::Body(body) => HttpResponse { status: 200, content_type: None, body },
        FetchOutcome::FetchFailed(err) => failure_page(err),
        FetchOutcome::DecodeFailed(err) => failure_page(err),
    }
}

/// No field of the inbound request enters any variant's answer: two
/// invocations that observe the same fetch outcome are answered alike,
/// whatever the two requests held.
pub proof fn lemma_response_ignores_inbound(a: InboundRequest, b: InboundRequest, o: FetchOutcome)
    ensures
        spec_handle_function_runtime(a, o) == spec_handle_function_runtime(b, o),
        spec_handle_edge_worker(a, o) == spec_handle_edge_worker(b, o),
        spec_handle_wasm_component(a, o) == spec_handle_wasm_component(b, o),
        spec_handle_error_page(a, o) == spec_handle_error_page(b, o),
{
}

/// Invoking a handler twice against the same reachable target yields two
/// successful answers, each built afresh from its own outcome: both carry the
/// fetched text verbatim with status 200, and they agree because nothing is
/// cached between invocations.
pub proof fn lemma_repeat_invocation(
    a: InboundRequest,
    b: InboundRequest,
    first: FetchOutcome,
    second: FetchOutcome,
)
    requires
        first == second,
        first is Body,
    ensures
        spec_handle_function_runtime(a, first) matches Ok(m) ==> m.status == 200 && m.body
            == first->Body_0@,
        spec_handle_function_runtime(a, first) is Ok,
        spec_handle_edge_worker(a, first) is Ok,
        spec_handle_wasm_component(a, first) is Ok,
        spec_handle_error_page(a, first).status == 200,
        spec_handle_function_runtime(a, first) == spec_handle_function_runtime(b, second),
        spec_handle_edge_worker(a, first) == spec_handle_edge_worker(b, second),
        spec_handle_wasm_component(a, first) == spec_handle_wasm_component(b, second),
        spec_handle_error_page(a, first) == spec_handle_error_page(b, second),
{
}

/// Every invocation ends in one of the taxonomy's terminal outcomes, for
/// every variant: a success carries the fetched text verbatim with status
/// 200; a fetch failure takes the fetch-failure path and a decode failure the
/// decode-failure path, never a panic.
pub proof fn lemma_terminal_outcomes(inbound: InboundRequest, outcome: FetchOutcome)
    ensures
        outcome matches FetchOutcome::Body(text) ==> {
            &&& spec_handle_function_runtime(inbound, outcome) matches Ok(m) && m.status == 200
                && m.body == text@ && m.content_type == Option::Some("text/html"@)
            &&& spec_handle_edge_worker(inbound, outcome) matches Ok(m) && m.status == 200
                && m.body == text@
            &&& spec_handle_wasm_component(inbound, outcome) matches Ok(m) && m.status == 200
                && m.body == text@
            &&& spec_handle_error_page(inbound, outcome) == (ResponseModel {
                status: 200,
                content_type: Option::None,
                body: text@,
            })
        },
        outcome matches FetchOutcome::FetchFailed(display) ==> {
            &&& spec_handle_function_runtime(inbound, outcome) matches Err(e) && e
                == HandlerError::Fetch
            &&& spec_handle_edge_worker(inbound, outcome) matches Err(e) && e
                == HandlerError::Fetch
            &&& spec_handle_wasm_component(inbound, outcome) matches Err(e) && e
                == HandlerError::Fetch
            &&& spec_handle_error_page(inbound, outcome) == (ResponseModel {
                status: 500,
                content_type: Option::None,
                body: spec_failure_prefix() + display@,
            })
        },
        outcome matches FetchOutcome::DecodeFailed(display) ==> {
            &&& spec_handle_function_runtime(inbound, outcome) matches Err(e) && e
                == HandlerError::Decode
            &&& spec_handle_edge_worker(inbound, outcome) matches Err(e) && e
                == HandlerError::Decode
            &&& spec_handle_wasm_component(inbound, outcome) matches Err(e) && e
                == HandlerError::Decode
            &&& spec_handle_error_page(inbound, outcome) == (ResponseModel {
                status: 500,
                content_type: Option::None,
                body: spec_failure_prefix() + display@,
            })
        },
{
}

} // verus!
