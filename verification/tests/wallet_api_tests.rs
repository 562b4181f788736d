use gateway::forward::chat_completions_path;
use gateway::forward::embeddings_path;
use gateway::forward::image_generations_path;
use gateway::forward::model_path;
use gateway::forward::models_path;
use gateway::headers::find_header;
use gateway::text::str_eq_ignore_case;
use gateway::wallet_api::balance_url;
use gateway::wallet_api::burn_url;
use gateway::wallet_api::create_invoice_url;
use gateway::wallet_api::info_url;
use gateway::wallet_api::invoice_state_url;
use gateway::wallet_api::invoices_url;
use gateway::wallet_api::lightning_balance_url;
use gateway::wallet_api::lock_url;
use gateway::wallet_api::locks_url;
use gateway::wallet_api::pay_invoice_url;
use gateway::wallet_api::payment_state_url;
use gateway::wallet_api::pending_url;
use gateway::wallet_api::receive_url;
use gateway::wallet_api::redeem_token_response;
use gateway::wallet_api::restore_url;
use gateway::wallet_api::send_url;
use gateway::wallet_api::swap_url;
use gateway::wallet_api::wallets_url;
use gateway::wallet_api::ReceiveResponse;

const W: &str = "http://wallet";

#[test]
fn send_urls_carry_amount_and_options() {
    assert_eq!(send_url(W, 30, None, None, None, None).as_str(), "http://wallet/send?amount=30");
    assert_eq!(
        send_url(W, 30, Some("npub1"), Some("lk"), Some("http://mint"), Some(true)).as_str(),
        "http://wallet/send?amount=30&nostr=npub1&lock=lk&mint=http://mint&offline=true"
    );
    assert_eq!(
        send_url(W, 30, None, None, None, Some(false)).as_str(),
        "http://wallet/send?amount=30"
    );
}

#[test]
fn receive_urls_join_flags_after_the_token() {
    assert_eq!(receive_url(W, None, None, None).as_str(), "http://wallet/receive");
    assert_eq!(receive_url(W, Some("5"), None, None).as_str(), "http://wallet/receive?token=5");
    assert_eq!(
        receive_url(W, Some("tok"), Some(true), Some(true)).as_str(),
        "http://wallet/receive?token=tok&nostr=true&all=true"
    );
    // Without a token the first flag opens the query itself.
    assert_eq!(
        receive_url(W, None, Some(true), None).as_str(),
        "http://wallet/receive?nostr=true"
    );
    assert_eq!(
        receive_url(W, None, None, Some(true)).as_str(),
        "http://wallet/receive?all=true"
    );
}

#[test]
fn burn_urls_pick_the_separator_from_earlier_parameters() {
    assert_eq!(burn_url(W, None, None, None, None, None).as_str(), "http://wallet/burn");
    assert_eq!(
        burn_url(W, Some("T"), Some(true), None, None, None).as_str(),
        "http://wallet/burn?token=T&all=true"
    );
    assert_eq!(burn_url(W, None, Some(true), None, None, None).as_str(), "http://wallet/burn?all=true");
    assert_eq!(
        burn_url(W, None, None, Some(true), Some("d1"), Some("m1")).as_str(),
        "http://wallet/burn?force=true&delete=d1&mint=m1"
    );
    assert_eq!(
        burn_url(W, None, None, None, None, Some("m1")).as_str(),
        "http://wallet/burn?mint=m1"
    );
}

#[test]
fn pending_and_state_urls_cover_both_separators() {
    assert_eq!(pending_url(W, None, None).as_str(), "http://wallet/pending");
    assert_eq!(pending_url(W, Some(4), Some(8)).as_str(), "http://wallet/pending?number=4&offset=8");
    assert_eq!(pending_url(W, None, Some(8)).as_str(), "http://wallet/pending?offset=8");
    assert_eq!(
        payment_state_url(W, Some("h"), Some("m")).as_str(),
        "http://wallet/lightning/payment_state?payment_hash=h&mint=m"
    );
    assert_eq!(
        payment_state_url(W, None, Some("m")).as_str(),
        "http://wallet/lightning/payment_state?mint=m"
    );
    assert_eq!(
        invoice_state_url(W, Some("req"), None).as_str(),
        "http://wallet/lightning/invoice_state?payment_request=req"
    );
}

#[test]
fn the_remaining_wallet_urls_are_fixed_suffixes() {
    assert_eq!(
        pay_invoice_url(W, "lnbc1", Some("m")).as_str(),
        "http://wallet/lightning/pay_invoice?bolt11=lnbc1&mint=m"
    );
    assert_eq!(
        create_invoice_url(W, 21, None).as_str(),
        "http://wallet/lightning/create_invoice?amount=21"
    );
    assert_eq!(
        swap_url(W, 7, "out", "in").as_str(),
        "http://wallet/swap?amount=7&outgoing_mint=out&incoming_mint=in"
    );
    assert_eq!(restore_url(W, 3).as_str(), "http://wallet/v1/restore?to=3");
    assert_eq!(balance_url(W).as_str(), "http://wallet/balance");
    assert_eq!(lightning_balance_url(W).as_str(), "http://wallet/lightning/balance");
    assert_eq!(lock_url(W).as_str(), "http://wallet/lock");
    assert_eq!(locks_url(W).as_str(), "http://wallet/locks");
    assert_eq!(invoices_url(W).as_str(), "http://wallet/invoices");
    assert_eq!(wallets_url(W).as_str(), "http://wallet/wallets");
    assert_eq!(info_url(W).as_str(), "http://wallet/info");
}

#[test]
fn redeem_responses_report_the_new_balance_or_the_refusal() {
    let ok = redeem_token_response(Ok(ReceiveResponse { initial_balance: 100, balance: 105 }));
    assert!(ok.success);
    assert_eq!(ok.amount.as_deref(), Some("105"));
    assert!(ok.message.is_none());

    let err = redeem_token_response(Err("bad token".to_string()));
    assert!(!err.success);
    assert!(err.amount.is_none());
    assert_eq!(err.message.as_deref(), Some("mal formed Token"));
}

#[test]
fn forward_paths_match_the_upstream_api() {
    assert_eq!(chat_completions_path().as_str(), "/v1/chat/completions");
    assert_eq!(models_path().as_str(), "/v1/models");
    assert_eq!(model_path("gpt-x").as_str(), "/v1/models/gpt-x");
    assert_eq!(embeddings_path().as_str(), "/v1/embeddings");
    assert_eq!(image_generations_path().as_str(), "/v1/images/generations");
}

#[test]
fn header_lookup_ignores_ascii_case_and_takes_the_first_match() {
    let hs = vec![
        ("X-CHANGE-sats".to_string(), "5".to_string()),
        ("x-change-SATS".to_string(), "9".to_string()),
    ];
    assert_eq!(find_header(&hs, "X-CHANGE-SATS").as_deref(), Some("5"));
    assert_eq!(find_header(&hs, "x-change-sats").as_deref(), Some("5"));
    assert!(find_header(&hs, "X-CHANGE-TOKEN").is_none());
    assert!(str_eq_ignore_case("Transfer-Encoding", "transfer-encoding"));
    assert!(!str_eq_ignore_case("Transfer-Encoding", "transfer-encodinG2"));
}
