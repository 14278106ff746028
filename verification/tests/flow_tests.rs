use tink_gateway::error::{ErrorKind, TinkApiError};
use tink_gateway::flow::{CreatePaymentFlow, FlowPhase};
use tink_gateway::gateway::TinkApiGateway;
use tink_gateway::http::{HttpMethod, HttpResponse, RequestBody};

fn gw() -> TinkApiGateway {
    TinkApiGateway::new(
        "https://api.example.test".to_string(),
        "client-1".to_string(),
        "client-secret-1".to_string(),
    )
}

fn stub(status: u16, body: &str) -> HttpResponse {
    HttpResponse { status, body: body.to_string() }
}

const TOKEN_BODY: &str = "{\"token_type\":\"bearer\",\"expires_in\":3600,\"access_token\":\"t\",\"scope\":\"payment:read,payment:write\"}";

#[test]
fn create_payment_end_to_end_success() {
    let mut flow = CreatePaymentFlow::new(gw(), "SE".to_string(), "SEK".to_string(), 100);
    assert_eq!(flow.phase, FlowPhase::NeedToken);

    // Exactly one token request leaves first.
    let token_req = flow.start();
    assert_eq!(token_req.method, HttpMethod::Post);
    assert!(token_req.url.ends_with("/api/v1/oauth/token"));
    assert_eq!(flow.phase, FlowPhase::TokenPending);

    flow.on_token_response(&stub(200, TOKEN_BODY)).expect("good token response");
    assert_eq!(flow.phase, FlowPhase::NeedPayment);
    assert_eq!(flow.token.as_deref(), Some("t"));

    // Exactly one payment submission leaves second, under the fetched token,
    // and its body echoes the flow's market, currency and amount.
    let pay_req = flow.submit_payment();
    assert_eq!(pay_req.method, HttpMethod::Post);
    assert!(pay_req.url.ends_with("/api/v1/payments/requests"));
    assert!(pay_req.headers.contains(&("Authorization".to_string(), "Bearer t".to_string())));
    let sent_doc = match &pay_req.body {
        RequestBody::Json(doc) => doc.clone(),
        other => panic!("payment submission should carry JSON, got {:?}", other),
    };
    let sent: serde_json::Value = serde_json::from_str(&sent_doc).unwrap();
    assert!(sent.get("id").unwrap().is_null());
    assert_eq!(sent.get("amount").and_then(|a| a.as_u64()), Some(100));
    assert_eq!(sent.get("currency").and_then(|c| c.as_str()), Some("SEK"));
    assert_eq!(sent.get("market").and_then(|m| m.as_str()), Some("SE"));

    let provider_record = "{\"id\":\"req-1\",\"amount\":100,\"currency\":\"SEK\",\"market\":\"SE\",\"sourceMessage\":\"Payment for Sneaker 034\",\"recipientName\":\"Demo Store AB\",\"remittanceInformation\":{\"type\":\"UNSTRUCTURED\",\"value\":\"3245928392092\"},\"destinations\":[{\"accountNumber\":\"33008808080808\",\"type\":\"se\"}]}";
    let p = flow.on_payment_response(&stub(200, provider_record)).expect("good payment response");
    assert_eq!(flow.phase, FlowPhase::Finished);
    assert_eq!(p.id.as_deref(), Some("req-1"));
    assert_eq!(p.amount, 100);
    assert_eq!(p.currency, "SEK");
    assert_eq!(p.market, "SE");
    assert_eq!(p.source_message, "Payment for Sneaker 034");
    assert_eq!(p.recipient_name, "Demo Store AB");
}

#[test]
fn token_failure_finishes_without_payment_request() {
    let mut flow = CreatePaymentFlow::new(gw(), "SE".to_string(), "SEK".to_string(), 100);
    let _token_req = flow.start();
    let e = flow.on_token_response(&stub(500, "denied")).unwrap_err();
    assert_eq!(e.kind, ErrorKind::ProviderProtocol);
    // The flow is finished: no payment request will ever be built or sent.
    assert_eq!(flow.phase, FlowPhase::Finished);
    assert_eq!(flow.token, None);
}

#[test]
fn malformed_payment_response_errors_and_leaves_sent_request_intact() {
    let mut flow = CreatePaymentFlow::new(gw(), "SE".to_string(), "SEK".to_string(), 100);
    let _token_req = flow.start();
    flow.on_token_response(&stub(200, TOKEN_BODY)).unwrap();
    let pay_req = flow.submit_payment();
    let before = pay_req.clone();
    let e = flow.on_payment_response(&stub(200, "{\"id\":")).unwrap_err();
    assert_eq!(e.kind, ErrorKind::ProviderProtocol);
    assert_eq!(flow.phase, FlowPhase::Finished);
    // The request that was sent is untouched by the parse failure.
    assert_eq!(pay_req, before);
}

#[test]
fn transfer_status_end_to_end_against_stub() {
    let g = gw();
    let req = g.get_transfer_status("t", "req-1");
    assert!(req.url.ends_with("/requests/req-1"));
    assert!(req.headers.contains(&("Authorization".to_string(), "Bearer t".to_string())));
    let record = "{\"id\":\"req-1\",\"amount\":100,\"currency\":\"SEK\",\"market\":\"SE\",\"sourceMessage\":\"m\",\"recipientName\":\"r\",\"remittanceInformation\":{\"type\":\"UNSTRUCTURED\",\"value\":\"v\"},\"destinations\":[]}";
    let p = tink_gateway::provider::parse_payment_response(&stub(200, record)).unwrap();
    assert_eq!(p.id.as_deref(), Some("req-1"));
    assert_eq!(p.destinations.len(), 0);
}

#[test]
fn error_messages_name_each_kind() {
    assert_eq!(TinkApiError::new(ErrorKind::Transport).message(), "provider unreachable");
    assert_eq!(TinkApiError::new(ErrorKind::ProviderProtocol).message(), "provider protocol error");
    assert_eq!(
        TinkApiError::new(ErrorKind::ProviderRejected).message(),
        "provider rejected the request"
    );
}
