use tink_gateway::error::ErrorKind;
use tink_gateway::http::HttpResponse;
use tink_gateway::provider::{parse_payment_response, parse_token_response};

fn resp(status: u16, body: &str) -> HttpResponse {
    HttpResponse { status, body: body.to_string() }
}

const TOKEN_BODY: &str = "{\"token_type\":\"bearer\",\"expires_in\":3600,\"access_token\":\"tok-1\",\"scope\":\"payment:read,payment:write\"}";

const PAYMENT_BODY: &str = "{\"id\":\"req-1\",\"amount\":100,\"currency\":\"SEK\",\"market\":\"SE\",\"sourceMessage\":\"Payment for Sneaker 034\",\"recipientName\":\"Demo Store AB\",\"remittanceInformation\":{\"type\":\"UNSTRUCTURED\",\"value\":\"3245928392092\"},\"destinations\":[{\"accountNumber\":\"33008808080808\",\"type\":\"se\"}]}";

#[test]
fn token_response_parses_on_success() {
    let t = parse_token_response(&resp(200, TOKEN_BODY)).expect("well-formed 200 must parse");
    assert_eq!(t.token_type, "bearer");
    assert_eq!(t.expires_in, 3600);
    assert_eq!(t.access_token, "tok-1");
    assert_eq!(t.scope, "payment:read,payment:write");
}

#[test]
fn token_response_rejects_bad_status() {
    let e = parse_token_response(&resp(500, TOKEN_BODY)).unwrap_err();
    assert_eq!(e.kind, ErrorKind::ProviderProtocol);
    let e = parse_token_response(&resp(199, TOKEN_BODY)).unwrap_err();
    assert_eq!(e.kind, ErrorKind::ProviderProtocol);
    let e = parse_token_response(&resp(300, TOKEN_BODY)).unwrap_err();
    assert_eq!(e.kind, ErrorKind::ProviderProtocol);
}

#[test]
fn token_response_rejects_malformed_json() {
    let e = parse_token_response(&resp(200, "{not json")).unwrap_err();
    assert_eq!(e.kind, ErrorKind::ProviderProtocol);
}

#[test]
fn token_response_rejects_missing_field() {
    let e = parse_token_response(&resp(200, "{\"token_type\":\"bearer\",\"expires_in\":3600}"))
        .unwrap_err();
    assert_eq!(e.kind, ErrorKind::ProviderProtocol);
}

#[test]
fn token_response_rejects_oversized_expiry() {
    let body = "{\"token_type\":\"bearer\",\"expires_in\":4294967296,\"access_token\":\"tok-1\",\"scope\":\"s\"}";
    let e = parse_token_response(&resp(200, body)).unwrap_err();
    assert_eq!(e.kind, ErrorKind::ProviderProtocol);
}

#[test]
fn payment_response_parses_and_carries_id() {
    let p = parse_payment_response(&resp(200, PAYMENT_BODY)).expect("well-formed 200 must parse");
    assert_eq!(p.id.as_deref(), Some("req-1"));
    assert_eq!(p.amount, 100);
    assert_eq!(p.currency, "SEK");
    assert_eq!(p.market, "SE");
    assert_eq!(p.destinations.len(), 1);
    assert_eq!(p.destinations[0].account_number, "33008808080808");
    assert_eq!(p.destinations[0].type_field, "se");
}

#[test]
fn payment_response_requires_provider_assigned_id() {
    let body = PAYMENT_BODY.replacen("\"id\":\"req-1\",", "", 1);
    let e = parse_payment_response(&resp(200, &body)).unwrap_err();
    assert_eq!(e.kind, ErrorKind::ProviderProtocol);
    let body = PAYMENT_BODY.replacen("\"id\":\"req-1\"", "\"id\":null", 1);
    let e = parse_payment_response(&resp(200, &body)).unwrap_err();
    assert_eq!(e.kind, ErrorKind::ProviderProtocol);
}

#[test]
fn payment_response_rejects_bad_status_and_bad_json() {
    let e = parse_payment_response(&resp(404, PAYMENT_BODY)).unwrap_err();
    assert_eq!(e.kind, ErrorKind::ProviderProtocol);
    let e = parse_payment_response(&resp(200, "<html>oops</html>")).unwrap_err();
    assert_eq!(e.kind, ErrorKind::ProviderProtocol);
}

#[test]
fn payment_response_rejects_oversized_amount() {
    let body = PAYMENT_BODY.replacen("\"amount\":100", "\"amount\":4294967296", 1);
    let e = parse_payment_response(&resp(200, &body)).unwrap_err();
    assert_eq!(e.kind, ErrorKind::ProviderProtocol);
}
