use firstrade_mcp::dispatch::complete_call;
use firstrade_mcp::dispatch::dispatch_plan;
use firstrade_mcp::dispatch::FetchOutcome;
use firstrade_mcp::error::AdapterError;
use firstrade_mcp::host::HostConfig;
use firstrade_mcp::payload::decode_body;
use firstrade_mcp::payload::forward_payload;
use firstrade_mcp::request::Operation;
use firstrade_mcp::request::ToolRequest;

fn localhost() -> HostConfig {
    HostConfig::new("localhost", 3001)
}

fn expect_missing(op: Operation, req: &ToolRequest, which: &str) {
    match dispatch_plan(op, req, &localhost()) {
        Err(AdapterError::MissingParameter { param }) => assert_eq!(param, which),
        other => panic!("expected a missing-parameter error, got {:?}", other),
    }
}

#[test]
fn operations_without_their_parameter_fail_before_any_call() {
    let empty = ToolRequest::empty();
    expect_missing(Operation::WatchlistQuotes, &empty, "id");
    expect_missing(Operation::AddWatchlist, &empty, "name");
    expect_missing(Operation::DeleteWatchlist, &empty, "id");
    expect_missing(Operation::AddSymbol, &empty, "id");
    expect_missing(Operation::RemoveSymbol, &empty, "id");
    expect_missing(Operation::SingleQuote, &empty, "symbol");
    expect_missing(Operation::Fundamentals, &empty, "symbol");
    expect_missing(Operation::CompanyProfile, &empty, "symbol");
    expect_missing(Operation::CashDividend, &empty, "symbol");
    expect_missing(Operation::CorpCalendar, &empty, "symbol");
}

#[test]
fn add_symbol_with_id_but_no_symbol_names_the_symbol() {
    let req = ToolRequest { id: Some(5), name: None, symbol: None };
    expect_missing(Operation::AddSymbol, &req, "symbol");
}

#[test]
fn missing_parameter_message_names_the_parameter() {
    let e = match dispatch_plan(Operation::DeleteWatchlist, &ToolRequest::empty(), &localhost()) {
        Err(e) => e,
        Ok(_) => panic!("resolution should have been rejected"),
    };
    assert_eq!(e.message(), "Missing required parameter: id");
    assert_eq!(e.reason(), "id");
}

#[test]
fn transport_failure_carries_the_attempted_url() {
    let url = "localhost:3001/position".to_string();
    let r = complete_call(url.clone(), FetchOutcome::Failed("connection refused".to_string()));
    match r {
        Err(AdapterError::TransportFailure { url: u, reason }) => {
            assert_eq!(u, url);
            assert_eq!(reason, "connection refused");
        },
        other => panic!("expected a transport failure, got {:?}", other.err()),
    }
}

#[test]
fn transport_failure_message_contains_the_literal_url() {
    let url = "localhost:3001/balances".to_string();
    let e = complete_call(url.clone(), FetchOutcome::Failed("dns error".to_string()))
        .expect_err("a failed fetch must surface an error");
    assert_eq!(e.message(), "Failed to fetch URL: localhost:3001/balances");
    assert!(e.message().contains(url.as_str()));
    assert_eq!(e.reason(), "dns error");
}

#[test]
fn non_json_body_is_a_decode_failure_not_a_transport_failure() {
    let r = complete_call(
        "localhost:3001/balances".to_string(),
        FetchOutcome::Body(b"<html>Internal Server Error</html>".to_vec()),
    );
    match r {
        Err(AdapterError::DecodeFailure { reason }) => assert!(!reason.is_empty()),
        other => panic!("expected a decode failure, got {:?}", other),
    }
}

#[test]
fn decode_failure_message_is_fixed() {
    let e = decode_body(b"not json").expect_err("the body is not JSON");
    assert_eq!(e.message(), "Failed to parse response Json");
    assert!(matches!(e, AdapterError::DecodeFailure { .. }));
}

#[test]
fn empty_body_is_a_decode_failure() {
    assert!(decode_body(b"").is_err());
}

#[test]
fn successful_response_is_forwarded_unmodified() {
    let r = complete_call(
        "localhost:3001/balances".to_string(),
        FetchOutcome::Body(b"{\"balance\": 100}".to_vec()),
    );
    let v = r.expect("a valid JSON body is owed back");
    assert_eq!(serde_json::to_string(&v).unwrap(), "{\"balance\":100}");
    let direct: serde_json::Value = serde_json::from_str("{\"balance\": 100}").unwrap();
    assert_eq!(v, direct);
}

#[test]
fn forwarding_hands_back_the_very_value() {
    let v: serde_json::Value = serde_json::from_str("[1, 2, 3]").unwrap();
    let out = forward_payload(v.clone()).expect("forwarding never fails");
    assert_eq!(out, v);
}

#[test]
fn json_scalars_and_arrays_pass_through() {
    for body in ["null", "true", "42", "\"quoted\"", "[]", "{}"] {
        let v = decode_body(body.as_bytes()).expect("valid JSON is owed back");
        let direct: serde_json::Value = serde_json::from_str(body).unwrap();
        assert_eq!(v, direct);
    }
}
