use gateway::forward::forward_step;
use gateway::forward::ForwardAction;
use gateway::forward::ForwardContext;
use gateway::forward::ForwardEvent;
use gateway::forward::ForwardPhase;
use gateway::forward::PaymentAttempt;
use gateway::forward::UpstreamHead;
use gateway::forward::PRICE_SATS;
use gateway::ledger::Ledger;
use gateway::ledger::TransactionDirection;
use gateway::server_config::ServerConfig;
use gateway::settle::apply_settlement;
use gateway::wallet_api::ReceiveResponse;

fn chat_ctx(payment_required: bool, streaming: bool) -> ForwardContext {
    ForwardContext {
        payment_required,
        streaming,
        path: "/v1/chat/completions".to_string(),
        has_body: true,
        accept: Some("application/json".to_string()),
    }
}

fn config() -> ServerConfig {
    ServerConfig { endpoint: "http://upstream".to_string(), api_key: "secret-key".to_string() }
}

fn pairs(list: &[(&str, &str)]) -> Vec<(String, String)> {
    list.iter().map(|(n, v)| (n.to_string(), v.to_string())).collect()
}

#[test]
fn missing_config_answers_400_before_anything_else() {
    let ctx = chat_ctx(true, false);
    let (phase, action) = forward_step(&ctx, ForwardPhase::ResolvingConfig, ForwardEvent::ConfigResolved(None));
    assert!(matches!(phase, ForwardPhase::Failed));
    match action {
        ForwardAction::Respond(resp) => {
            assert_eq!(resp.status, 400);
            assert_eq!(
                resp.body.as_str(),
                "{\"error\":{\"message\":\"Server configuration missing. Cannot process request without a configured endpoint.\",\"type\":\"server_error\",\"param\":null,\"code\":\"server_config_missing\"}}"
            );
        },
        _ => panic!("expected an error response"),
    }
}

#[test]
fn missing_config_answers_400_on_passthrough_routes_too() {
    let ctx = ForwardContext {
        payment_required: false,
        streaming: false,
        path: "/v1/models".to_string(),
        has_body: false,
        accept: None,
    };
    let (phase, action) = forward_step(&ctx, ForwardPhase::ResolvingConfig, ForwardEvent::ConfigResolved(None));
    assert!(matches!(phase, ForwardPhase::Failed));
    match action {
        ForwardAction::Respond(resp) => {
            assert_eq!(resp.status, 400);
            assert!(resp.body.contains("server_config_missing"));
        },
        _ => panic!("expected an error response, not a mint or a dispatch"),
    }
}

#[test]
fn payment_required_asks_the_wallet_first() {
    let ctx = chat_ctx(true, false);
    let (phase, action) = forward_step(
        &ctx,
        ForwardPhase::ResolvingConfig,
        ForwardEvent::ConfigResolved(Some(config())),
    );
    assert!(matches!(phase, ForwardPhase::Minting { .. }));
    match action {
        ForwardAction::Mint { sats } => assert_eq!(sats, PRICE_SATS),
        _ => panic!("expected a mint request"),
    }
}

#[test]
fn failed_mint_answers_500_and_never_dispatches() {
    let ctx = chat_ctx(true, false);
    let (phase, action) = forward_step(
        &ctx,
        ForwardPhase::Minting { config: config() },
        ForwardEvent::MintFinished(Err("boom".to_string())),
    );
    assert!(matches!(phase, ForwardPhase::Failed));
    match action {
        ForwardAction::Respond(resp) => {
            assert_eq!(resp.status, 500);
            assert_eq!(
                resp.body.as_str(),
                "{\"error\":{\"message\":\"Failed to generate payment token: boom\",\"type\":\"payment_error\"}}"
            );
        },
        ForwardAction::SendUpstream(_) => panic!("mint failed, nothing may reach the upstream"),
        _ => panic!("expected an error response"),
    }
}

#[test]
fn successful_mint_builds_the_paid_request() {
    let ctx = chat_ctx(true, false);
    let (phase, action) = forward_step(
        &ctx,
        ForwardPhase::Minting { config: config() },
        ForwardEvent::MintFinished(Ok("cashuTok".to_string())),
    );
    match phase {
        ForwardPhase::Dispatching { minted: Some(att) } => {
            assert_eq!(att.sats, 30);
            assert_eq!(att.token.as_str(), "cashuTok");
        },
        _ => panic!("expected a dispatching phase with the payment attempt"),
    }
    match action {
        ForwardAction::SendUpstream(req) => {
            assert!(req.method_post);
            assert!(req.has_body);
            assert_eq!(req.url.as_str(), "http://upstream/v1/chat/completions");
            let headers: Vec<(&str, &str)> =
                req.headers.iter().map(|(n, v)| (n.as_str(), v.as_str())).collect();
            assert_eq!(
                headers,
                vec![
                    ("Authorization", "Bearer secret-key"),
                    ("Content-Type", "application/json"),
                    ("X-PAYMENT-SATS", "cashuTok"),
                    ("Accept", "application/json"),
                ]
            );
        },
        _ => panic!("expected an upstream dispatch"),
    }
}

#[test]
fn passthrough_skips_the_wallet() {
    let ctx = ForwardContext {
        payment_required: false,
        streaming: false,
        path: "/v1/models".to_string(),
        has_body: false,
        accept: None,
    };
    let (phase, action) = forward_step(
        &ctx,
        ForwardPhase::ResolvingConfig,
        ForwardEvent::ConfigResolved(Some(config())),
    );
    assert!(matches!(phase, ForwardPhase::Dispatching { minted: None }));
    match action {
        ForwardAction::SendUpstream(req) => {
            assert!(!req.method_post);
            assert_eq!(req.url.as_str(), "http://upstream/v1/models");
            let headers: Vec<(&str, &str)> =
                req.headers.iter().map(|(n, v)| (n.as_str(), v.as_str())).collect();
            assert_eq!(
                headers,
                vec![("Authorization", "Bearer secret-key"), ("Content-Type", "application/json")]
            );
        },
        _ => panic!("expected an upstream dispatch"),
    }
}

#[test]
fn network_failure_answers_500_gateway_error() {
    let ctx = chat_ctx(true, false);
    let mut ledger = Ledger::new();
    let (phase, action) = forward_step(
        &ctx,
        ForwardPhase::Dispatching {
            minted: Some(PaymentAttempt { sats: 30, token: "cashuTok".to_string() }),
        },
        ForwardEvent::DispatchFinished(Err("connection refused".to_string())),
    );
    assert!(matches!(phase, ForwardPhase::Failed));
    match action {
        ForwardAction::Respond(resp) => {
            assert_eq!(resp.status, 500);
            assert_eq!(
                resp.body.as_str(),
                "{\"error\":{\"message\":\"Error forwarding request: connection refused\",\"type\":\"gateway_error\"}}"
            );
        },
        _ => panic!("expected an error response"),
    }
    assert_eq!(ledger.get_transactions(None, None).pagination.total, 0);
    assert_eq!(ledger.get_credits(None, None).pagination.total, 0);
    let _ = &mut ledger;
}

#[test]
fn change_sats_settles_into_two_rows() {
    let ctx = chat_ctx(true, false);
    let head = UpstreamHead {
        status: 200,
        headers: pairs(&[("Content-Type", "application/json"), ("X-CHANGE-SATS", "5")]),
    };
    let (_, action) = forward_step(
        &ctx,
        ForwardPhase::Dispatching {
            minted: Some(PaymentAttempt { sats: 30, token: "mintedTok".to_string() }),
        },
        ForwardEvent::DispatchFinished(Ok(head)),
    );
    let settlement = match action {
        ForwardAction::Proceed { response, settlement } => {
            assert_eq!(response.status, 200);
            settlement
        },
        _ => panic!("expected the relay to begin"),
    };
    let rd = settlement.redeem.as_ref().expect("the sats signal must ask for a redemption");
    assert_eq!(rd.claim.as_str(), "5");
    assert_eq!(rd.spent_token.as_str(), "mintedTok");
    assert_eq!(rd.charged_amount.as_str(), "30");
    assert!(settlement.credit.is_none());

    let mut ledger = Ledger::new();
    apply_settlement(
        &mut ledger,
        &settlement,
        Some(Ok(ReceiveResponse { initial_balance: 100, balance: 105 })),
    );
    let page = ledger.get_transactions(None, None);
    assert_eq!(page.pagination.total, 2);
    // Newest first: the incoming row was written after the outgoing one.
    assert_eq!(page.data[1].token.as_str(), "mintedTok");
    assert_eq!(page.data[1].amount.as_str(), "30");
    assert!(matches!(page.data[1].direction, TransactionDirection::Outgoing));
    assert_eq!(page.data[0].token.as_str(), "5");
    assert_eq!(page.data[0].amount.as_str(), "5");
    assert!(matches!(page.data[0].direction, TransactionDirection::Incoming));
    assert_eq!(ledger.get_credits(None, None).pagination.total, 0);
}

#[test]
fn change_token_banks_one_credit_row() {
    let ctx = chat_ctx(true, false);
    let head = UpstreamHead {
        status: 200,
        headers: pairs(&[("X-CHANGE-TOKEN", "cashuAbc"), ("X-CHANGE-AMOUNT", "3")]),
    };
    let (_, action) = forward_step(
        &ctx,
        ForwardPhase::Dispatching {
            minted: Some(PaymentAttempt { sats: 30, token: "mintedTok".to_string() }),
        },
        ForwardEvent::DispatchFinished(Ok(head)),
    );
    let settlement = match action {
        ForwardAction::Proceed { settlement, .. } => settlement,
        _ => panic!("expected the relay to begin"),
    };
    assert!(settlement.redeem.is_none());
    let cd = settlement.credit.as_ref().expect("the token pair must bank a credit");
    assert_eq!(cd.token.as_str(), "cashuAbc");
    assert_eq!(cd.amount.as_str(), "3");

    let mut ledger = Ledger::new();
    apply_settlement(&mut ledger, &settlement, None);
    let credits = ledger.get_credits(None, None);
    assert_eq!(credits.pagination.total, 1);
    assert_eq!(credits.data[0].token.as_str(), "cashuAbc");
    assert_eq!(credits.data[0].amount.as_str(), "3");
    assert!(!credits.data[0].redeemed);
    assert_eq!(ledger.get_transactions(None, None).pagination.total, 0);
}

#[test]
fn both_signals_can_fire_on_one_response() {
    let ctx = chat_ctx(true, false);
    let head = UpstreamHead {
        status: 200,
        headers: pairs(&[
            ("X-CHANGE-SATS", "5"),
            ("X-CHANGE-TOKEN", "cashuAbc"),
            ("X-CHANGE-AMOUNT", "3"),
        ]),
    };
    let (_, action) = forward_step(
        &ctx,
        ForwardPhase::Dispatching {
            minted: Some(PaymentAttempt { sats: 30, token: "mintedTok".to_string() }),
        },
        ForwardEvent::DispatchFinished(Ok(head)),
    );
    let settlement = match action {
        ForwardAction::Proceed { settlement, .. } => settlement,
        _ => panic!("expected the relay to begin"),
    };
    assert!(settlement.redeem.is_some());
    assert!(settlement.credit.is_some());
    let mut ledger = Ledger::new();
    apply_settlement(
        &mut ledger,
        &settlement,
        Some(Ok(ReceiveResponse { initial_balance: 10, balance: 15 })),
    );
    assert_eq!(ledger.get_transactions(None, None).pagination.total, 2);
    assert_eq!(ledger.get_credits(None, None).pagination.total, 1);
}

#[test]
fn failed_redemption_is_swallowed_without_rows() {
    let ctx = chat_ctx(true, false);
    let head = UpstreamHead { status: 200, headers: pairs(&[("X-CHANGE-SATS", "5")]) };
    let (_, action) = forward_step(
        &ctx,
        ForwardPhase::Dispatching {
            minted: Some(PaymentAttempt { sats: 30, token: "mintedTok".to_string() }),
        },
        ForwardEvent::DispatchFinished(Ok(head)),
    );
    let settlement = match action {
        ForwardAction::Proceed { settlement, .. } => settlement,
        _ => panic!("expected the relay to begin"),
    };
    let mut ledger = Ledger::new();
    apply_settlement(&mut ledger, &settlement, Some(Err("mint unreachable".to_string())));
    assert_eq!(ledger.get_transactions(None, None).pagination.total, 0);
    assert_eq!(ledger.get_credits(None, None).pagination.total, 0);
}

#[test]
fn passthrough_responses_are_never_settled() {
    let ctx = ForwardContext {
        payment_required: false,
        streaming: false,
        path: "/v1/models".to_string(),
        has_body: false,
        accept: None,
    };
    let head = UpstreamHead { status: 200, headers: pairs(&[("X-CHANGE-SATS", "5")]) };
    let (_, action) = forward_step(
        &ctx,
        ForwardPhase::Dispatching { minted: None },
        ForwardEvent::DispatchFinished(Ok(head)),
    );
    match action {
        ForwardAction::Proceed { settlement, .. } => {
            assert!(settlement.redeem.is_none());
            assert!(settlement.credit.is_none());
        },
        _ => panic!("expected the relay to begin"),
    }
}

#[test]
fn hop_by_hop_headers_are_not_mirrored() {
    let ctx = chat_ctx(true, false);
    let head = UpstreamHead {
        status: 503,
        headers: pairs(&[
            ("Connection", "close"),
            ("X-Other", "v"),
            ("Transfer-Encoding", "chunked"),
            ("content-type", "text/plain"),
        ]),
    };
    let (_, action) = forward_step(
        &ctx,
        ForwardPhase::Dispatching {
            minted: Some(PaymentAttempt { sats: 30, token: "t".to_string() }),
        },
        ForwardEvent::DispatchFinished(Ok(head)),
    );
    match action {
        ForwardAction::Proceed { response, .. } => {
            assert_eq!(response.status, 503);
            let headers: Vec<(&str, &str)> =
                response.headers.iter().map(|(n, v)| (n.as_str(), v.as_str())).collect();
            assert_eq!(headers, vec![("X-Other", "v"), ("content-type", "text/plain")]);
        },
        _ => panic!("expected the relay to begin"),
    }
}

#[test]
fn streaming_gets_a_default_content_type_only_when_missing() {
    let ctx = chat_ctx(true, true);
    let head = UpstreamHead { status: 200, headers: pairs(&[("X-Other", "v")]) };
    let (_, action) = forward_step(
        &ctx,
        ForwardPhase::Dispatching {
            minted: Some(PaymentAttempt { sats: 30, token: "t".to_string() }),
        },
        ForwardEvent::DispatchFinished(Ok(head)),
    );
    match action {
        ForwardAction::Proceed { response, .. } => {
            let headers: Vec<(&str, &str)> =
                response.headers.iter().map(|(n, v)| (n.as_str(), v.as_str())).collect();
            assert_eq!(
                headers,
                vec![("Content-Type", "text/event-stream"), ("X-Other", "v")]
            );
        },
        _ => panic!("expected the relay to begin"),
    }

    let head2 = UpstreamHead { status: 200, headers: pairs(&[("content-TYPE", "text/plain")]) };
    let (_, action2) = forward_step(
        &ctx,
        ForwardPhase::Dispatching {
            minted: Some(PaymentAttempt { sats: 30, token: "t".to_string() }),
        },
        ForwardEvent::DispatchFinished(Ok(head2)),
    );
    match action2 {
        ForwardAction::Proceed { response, .. } => {
            let headers: Vec<(&str, &str)> =
                response.headers.iter().map(|(n, v)| (n.as_str(), v.as_str())).collect();
            assert_eq!(headers, vec![("content-TYPE", "text/plain")]);
        },
        _ => panic!("expected the relay to begin"),
    }
}
