use serverless_proxy::handler::bind_address;
use serverless_proxy::handler::handle_edge_worker;
use serverless_proxy::handler::handle_error_page;
use serverless_proxy::handler::handle_function_runtime;
use serverless_proxy::handler::handle_wasm_component;
use serverless_proxy::handler::target_url;
use serverless_proxy::message::FetchOutcome;
use serverless_proxy::message::HandlerError;
use serverless_proxy::message::InboundRequest;

fn inbound(method: &str, path: &str) -> InboundRequest {
    InboundRequest {
        method: method.to_string(),
        path: path.to_string(),
        headers: Vec::new(),
        body: Vec::new(),
    }
}

#[test]
fn success_passes_body_through_function_runtime() {
    let req = inbound("GET", "/");
    let body = "<html>front page</html>".to_string();
    let resp = handle_function_runtime(&req, FetchOutcome::Body(body)).unwrap();
    assert_eq!(resp.status, 200);
    assert_eq!(resp.body, "<html>front page</html>");
    assert_eq!(resp.content_type, Some("text/html".to_string()));
}

#[test]
fn success_passes_body_through_edge_worker() {
    let req = inbound("GET", "/");
    let resp = handle_edge_worker(&req, FetchOutcome::Body("plain text".to_string())).unwrap();
    assert_eq!(resp.status, 200);
    assert_eq!(resp.body, "plain text");
    assert_eq!(resp.content_type, None);
}

#[test]
fn success_passes_body_through_wasm_component() {
    let req = inbound("GET", "/");
    let resp = handle_wasm_component(&req, FetchOutcome::Body(String::new())).unwrap();
    assert_eq!(resp.status, 200);
    assert_eq!(resp.body, "");
}

#[test]
fn success_passes_body_through_error_page_variant() {
    let req = inbound("GET", "/");
    let resp = handle_error_page(&req, FetchOutcome::Body("B".to_string()));
    assert_eq!(resp.status, 200);
    assert_eq!(resp.body, "B");
}

#[test]
fn fetch_failure_propagates_in_function_runtime() {
    let req = inbound("GET", "/");
    let out = FetchOutcome::FetchFailed("connection refused".to_string());
    let err = handle_function_runtime(&req, out).unwrap_err();
    assert_eq!(err, HandlerError::Fetch);
    assert_eq!(err.message(), "failed to get");
}

#[test]
fn fetch_failure_propagates_in_edge_worker() {
    let req = inbound("GET", "/");
    let out = FetchOutcome::FetchFailed("dns error".to_string());
    assert_eq!(handle_edge_worker(&req, out).unwrap_err(), HandlerError::Fetch);
}

#[test]
fn fetch_failure_propagates_in_wasm_component() {
    let req = inbound("GET", "/");
    let out = FetchOutcome::FetchFailed("dns error".to_string());
    assert_eq!(handle_wasm_component(&req, out).unwrap_err(), HandlerError::Fetch);
}

#[test]
fn fetch_failure_becomes_500_page() {
    let req = inbound("GET", "/");
    let out = FetchOutcome::FetchFailed("connection refused".to_string());
    let resp = handle_error_page(&req, out);
    assert_eq!(resp.status, 500);
    assert_eq!(resp.body, "Server failed with connection refused");
}

#[test]
fn decode_failure_propagates() {
    let req = inbound("GET", "/");
    let out = FetchOutcome::DecodeFailed("invalid utf-8 sequence".to_string());
    let err = handle_function_runtime(&req, out).unwrap_err();
    assert_eq!(err, HandlerError::Decode);
    assert_eq!(err.message(), "failed to convert to text");

    let out = FetchOutcome::DecodeFailed("invalid utf-8 sequence".to_string());
    assert_eq!(handle_edge_worker(&req, out).unwrap_err(), HandlerError::Decode);

    let out = FetchOutcome::DecodeFailed("invalid utf-8 sequence".to_string());
    assert_eq!(handle_wasm_component(&req, out).unwrap_err(), HandlerError::Decode);
}

#[test]
fn decode_failure_becomes_500_page() {
    let req = inbound("GET", "/");
    let out = FetchOutcome::DecodeFailed("invalid utf-8 sequence".to_string());
    let resp = handle_error_page(&req, out);
    assert_eq!(resp.status, 500);
    assert_eq!(resp.body, "Server failed with invalid utf-8 sequence");
}

#[test]
fn repeat_invocation_answers_alike() {
    let req = inbound("GET", "/");
    let first =
        handle_function_runtime(&req, FetchOutcome::Body("same page".to_string())).unwrap();
    let second =
        handle_function_runtime(&req, FetchOutcome::Body("same page".to_string())).unwrap();
    assert_eq!(first.status, 200);
    assert_eq!(second.status, 200);
    assert_eq!(first.body, second.body);
    assert_eq!(first.content_type, second.content_type);
}

#[test]
fn inbound_request_does_not_enter_the_answer() {
    let a = inbound("GET", "/");
    let mut b = inbound("DELETE", "/admin?drop=1");
    b.headers.push(("x-forwarded-for".to_string(), "203.0.113.9".to_string()));
    b.body = vec![0xff, 0x00, 0x7f];

    let ra = handle_function_runtime(&a, FetchOutcome::Body("B".to_string())).unwrap();
    let rb = handle_function_runtime(&b, FetchOutcome::Body("B".to_string())).unwrap();
    assert_eq!(ra.status, rb.status);
    assert_eq!(ra.body, rb.body);
    assert_eq!(ra.content_type, rb.content_type);

    let pa = handle_error_page(&a, FetchOutcome::FetchFailed("timed out".to_string()));
    let pb = handle_error_page(&b, FetchOutcome::FetchFailed("timed out".to_string()));
    assert_eq!(pa.status, pb.status);
    assert_eq!(pa.body, pb.body);
}

#[test]
fn fixed_configuration_constants() {
    assert_eq!(target_url(), "https://www.rust-lang.org");
    assert_eq!(bind_address(), "0.0.0.0:3000");
}
