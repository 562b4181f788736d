//! The forwarding engine: one request's walk from configuration resolution
//! through payment minting and upstream dispatch to the response plan. The
//! engine is a step function from phase and event to next phase and action;
//! the surrounding process performs each action (the wallet call, the HTTP
//! dispatch) and feeds the outcome back as the next event. The contract pins
//! every transition, in particular that the upstream is never contacted when
//! the configuration is missing or, on a payment-required forward, before a
//! mint has succeeded.
use vstd::prelude::*;

verus! {

use crate::amount::dec_rep;
use crate::amount::u64_to_amount;
use crate::headers::filter_response_headers;
use crate::headers::header_lookup;
use crate::headers::spec_kept_headers;
use crate::json::config_missing_body;
use crate::json::gateway_error_body;
use crate::json::payment_error_body;
use crate::json::spec_config_missing_body;
use crate::json::spec_gateway_error_body;
use crate::json::spec_payment_error_body;
use crate::server_config::ServerConfig;

/// The fixed price of one forwarded call, in sats.
pub const PRICE_SATS: u64 = 30;

/// The sats charged for one forward and the token minted for them; lives only
/// for the one request.
pub struct PaymentAttempt {
    pub sats: u64,
    pub token: String,
}

/// What one inbound request asks of the engine.
pub struct ForwardContext {
    pub payment_required: bool,
    pub streaming: bool,
    pub path: String,
    pub has_body: bool,
    pub accept: Option<String>,
}

/// The upstream request to send: POST with the caller's JSON body when one
/// was supplied, GET otherwise, against the configured endpoint.
pub struct UpstreamRequest {
    pub method_post: bool,
    pub url: String,
    pub headers: Vec<(String, String)>,
    pub has_body: bool,
}

/// Status line and headers of the upstream response, once known.
pub struct UpstreamHead {
    pub status: u16,
    pub headers: Vec<(String, String)>,
}

/// A terminal error answer to the caller.
pub struct ErrorResponse {
    pub status: u16,
    pub body: String,
}

/// The committed answer: mirrored status and filtered headers; the body is
/// then relayed chunk by chunk.
pub struct ResponsePlan {
    pub status: u16,
    pub headers: Vec<(String, String)>,
}

/// An instruction to redeem change by amount: call the wallet's receive with
/// the claim, and on success write the two transaction rows.
pub struct RedeemDirective {
    pub claim: String,
    pub spent_token: String,
    pub charged_amount: String,
}

/// An instruction to bank a leftover change token as an unredeemed credit.
pub struct CreditDirective {
    pub token: String,
    pub amount: String,
}

/// What the upstream's change signals ask for; the two signals are
/// independent and may both fire on one response.
pub struct SettlementPlan {
    pub redeem: Option<RedeemDirective>,
    pub credit: Option<CreditDirective>,
}

pub enum ForwardPhase {
    ResolvingConfig,
    Minting { config: ServerConfig },
    Dispatching { minted: Option<PaymentAttempt> },
    Relaying,
    Failed,
}

pub enum ForwardEvent {
    ConfigResolved(Option<ServerConfig>),
    MintFinished(Result<String, String>),
    DispatchFinished(Result<UpstreamHead, String>),
}

pub enum ForwardAction {
    Mint { sats: u64 },
    SendUpstream(UpstreamRequest),
    Respond(ErrorResponse),
    Proceed { response: ResponsePlan, settlement: SettlementPlan },
}

/// Which event can answer which phase.
pub open spec fn phase_accepts(phase: ForwardPhase, event: ForwardEvent) -> bool {
    match (phase, event) {
        (ForwardPhase::ResolvingConfig, ForwardEvent::ConfigResolved(_)) => true,
        (ForwardPhase::Minting { .. }, ForwardEvent::MintFinished(_)) => true,
        (ForwardPhase::Dispatching { .. }, ForwardEvent::DispatchFinished(_)) => true,
        _ => false,
    }
}

/// How many headers the upstream request carries.
pub open spec fn spec_header_count(has_token: bool, has_accept: bool) -> int {
    2 + (if has_token {
        1int
    } else {
        0int
    }) + (if has_accept {
        1int
    } else {
        0int
    })
}

/// The upstream request built for a context and configuration: the only
/// forwarded inbound header is `Accept`; `Authorization` always carries the
/// configured credential, never the caller's, and the minted token rides in
/// `X-PAYMENT-SATS`.
pub open spec fn spec_request(
    req: UpstreamRequest,
    cfg: ServerConfig,
    ctx: ForwardContext,
    token: Option<Seq<char>>,
) -> bool {
    &&& req.method_post == ctx.has_body
    &&& req.has_body == ctx.has_body
    &&& req.url@ == cfg.endpoint@ + ctx.path@
    &&& req.headers@.len() == spec_header_count(token is Some, ctx.accept is Some)
    &&& req.headers@[0].0@ == "Authorization"@
    &&& req.headers@[0].1@ == "Bearer "@ + cfg.api_key@
    &&& req.headers@[1].0@ == "Content-Type"@
    &&& req.headers@[1].1@ == "application/json"@
    &&& (token matches Some(t) ==> req.headers@[2].0@ == "X-PAYMENT-SATS"@ && req.headers@[2].1@
        == t)
    &&& (ctx.accept matches Some(a) ==> {
        let ai = if token is Some {
            3int
        } else {
            2int
        };
        req.headers@[ai].0@ == "Accept"@ && req.headers@[ai].1@ == a@
    })
}

/// The outbound headers mirror the upstream ones minus the hop-by-hop pair,
/// with the streaming default `Content-Type` put first when upstream set
/// none.
pub open spec fn spec_response_headers(
    outbound: Seq<(String, String)>,
    upstream: Seq<(String, String)>,
    streaming: bool,
) -> bool {
    if streaming && header_lookup(upstream, "Content-Type"@) is None {
        &&& outbound.len() == spec_kept_headers(upstream).len() + 1
        &&& outbound[0].0@ == "Content-Type"@
        &&& outbound[0].1@ == "text/event-stream"@
        &&& outbound.skip(1) == spec_kept_headers(upstream)
    } else {
        outbound == spec_kept_headers(upstream)
    }
}

/// What settlement a response asks for, given the headers and the payment
/// attempt of this request: `X-CHANGE-SATS` asks to redeem that amount;
/// `X-CHANGE-TOKEN` with `X-CHANGE-AMOUNT` asks to bank a credit. Without a
/// payment attempt (a passthrough) nothing is settled.
pub open spec fn spec_settlement(
    plan: SettlementPlan,
    upstream: Seq<(String, String)>,
    minted: Option<PaymentAttempt>,
) -> bool {
    match minted {
        None => plan.redeem is None && plan.credit is None,
        Some(att) => {
            &&& match header_lookup(upstream, "X-CHANGE-SATS"@) {
                Some(v) => plan.redeem matches Some(rd) && rd.claim@ == v && rd.spent_token@
                    == att.token@ && rd.charged_amount@ == dec_rep(att.sats as nat),
                None => plan.redeem is None,
            }
            &&& match (
                header_lookup(upstream, "X-CHANGE-TOKEN"@),
                header_lookup(upstream, "X-CHANGE-AMOUNT"@),
            ) {
                (Some(t), Some(a)) => plan.credit matches Some(cd) && cd.token@ == t && cd.amount@
                    == a,
                _ => plan.credit is None,
            }
        },
    }
}

/// The protective guarantees of one engine step, as a relation the
/// run-level laws quantify over: anything sent upstream follows either a
/// resolved configuration on a payment-free forward or a successful mint; a
/// mint is requested only once a configuration is resolved on a
/// payment-required forward; and a failed phase always carries an error
/// response.
pub open spec fn spec_step_guarantees(
    ctx: ForwardContext,
    event: ForwardEvent,
    next: ForwardPhase,
    action: ForwardAction,
) -> bool {
    &&& (action matches ForwardAction::SendUpstream(req) ==> (event
        matches ForwardEvent::ConfigResolved(c) && c is Some && !ctx.payment_required) || (event
        matches ForwardEvent::MintFinished(m) && m is Ok))
    &&& (action matches ForwardAction::Mint { sats } ==> (event
        matches ForwardEvent::ConfigResolved(c) && c is Some) && ctx.payment_required)
    &&& (next is Failed ==> action matches ForwardAction::Respond(resp))
}

/// On a payment-required forward in which minting never succeeds, no step of
/// the run sends anything upstream: a mint failure blocks the path before
/// any network contact.
pub proof fn lemma_failed_mint_blocks_upstream(
    ctx: ForwardContext,
    events: Seq<ForwardEvent>,
    nexts: Seq<ForwardPhase>,
    actions: Seq<ForwardAction>,
)
    requires
        ctx.payment_required,
        events.len() == actions.len(),
        nexts.len() == actions.len(),
        forall|i: int|
            0 <= i < actions.len() ==> spec_step_guarantees(
                ctx,
                #[trigger] events[i],
                nexts[i],
                actions[i],
            ),
        forall|i: int|
            0 <= i < events.len() ==> !(#[trigger] events[i]
                matches ForwardEvent::MintFinished(m) && m is Ok),
    ensures
        forall|i: int|
            0 <= i < actions.len() ==> !(#[trigger] actions[i]
                matches ForwardAction::SendUpstream(req)),
{
    assert forall|i: int| 0 <= i < actions.len() implies !(#[trigger] actions[i]
        matches ForwardAction::SendUpstream(req)) by {
        assert(spec_step_guarantees(ctx, events[i], nexts[i], actions[i]));
    }
}

/// While the configuration is missing, the wallet is never asked to mint and
/// nothing is sent upstream, in any run whose mint outcomes all answer a
/// mint the engine requested earlier.
pub proof fn lemma_missing_config_blocks_wallet(
    ctx: ForwardContext,
    events: Seq<ForwardEvent>,
    nexts: Seq<ForwardPhase>,
    actions: Seq<ForwardAction>,
)
    requires
        events.len() == actions.len(),
        nexts.len() == actions.len(),
        forall|i: int|
            0 <= i < actions.len() ==> spec_step_guarantees(
                ctx,
                #[trigger] events[i],
                nexts[i],
                actions[i],
            ),
        forall|i: int|
            0 <= i < events.len() ==> !(#[trigger] events[i]
                matches ForwardEvent::ConfigResolved(c) && c is Some),
        forall|i: int|
            0 <= i < events.len() ==> ((#[trigger] events[i] matches ForwardEvent::MintFinished(m))
                ==> exists|j: int|
                0 <= j < i && #[trigger] actions[j] matches (ForwardAction::Mint { sats })),
    ensures
        forall|i: int|
            0 <= i < actions.len() ==> !(#[trigger] actions[i] matches (ForwardAction::Mint {
                sats,
            })),
        forall|i: int|
            0 <= i < actions.len() ==> !(#[trigger] actions[i]
                matches ForwardAction::SendUpstream(req)),
    decreases actions.len(),
{
    let n = actions.len() as int;
    if n > 0 {
        assert(forall|i: int| 0 <= i < n - 1 ==> #[trigger] events.drop_last()[i] == events[i]);
        assert(forall|i: int| 0 <= i < n - 1 ==> #[trigger] actions.drop_last()[i] == actions[i]);
        assert(forall|i: int| 0 <= i < n - 1 ==> #[trigger] nexts.drop_last()[i] == nexts[i]);
        assert forall|i: int|
            0 <= i < n - 1 && (#[trigger] events.drop_last()[i]
                matches ForwardEvent::MintFinished(m)) implies exists|j: int|
            0 <= j < i && #[trigger] actions.drop_last()[j] matches (ForwardAction::Mint {
                sats,
            }) by {
            assert(events[i] matches ForwardEvent::MintFinished(m));
            let j = choose|j: int|
                0 <= j < i && #[trigger] actions[j] matches (ForwardAction::Mint { sats });
            assert(actions.drop_last()[j] matches (ForwardAction::Mint { sats }));
        }
        lemma_missing_config_blocks_wallet(
            ctx,
            events.drop_last(),
            nexts.drop_last(),
            actions.drop_last(),
        );
        assert forall|i: int| 0 <= i < n implies !(#[trigger] actions[i] matches (
        ForwardAction::Mint { sats })) && !(actions[i] matches ForwardAction::SendUpstream(req)) by {
            if i < n - 1 {
                assert(!(actions.drop_last()[i] matches (ForwardAction::Mint { sats })));
                assert(!(actions.drop_last()[i] matches ForwardAction::SendUpstream(req)));
            } else {
                if events[i] matches ForwardEvent::MintFinished(m) {
                    let j = choose|j: int|
                        0 <= j < i && #[trigger] actions[j] matches (ForwardAction::Mint { sats });
                    assert(!(actions.drop_last()[j] matches (ForwardAction::Mint { sats })));
                    assert(false);
                }
                assert(spec_step_guarantees(ctx, events[i], nexts[i], actions[i]));
            }
        }
    }
}

pub fn build_upstream_request(cfg: &ServerConfig, ctx: &ForwardContext, token: Option<&String>) -> (
    r: UpstreamRequest)
    ensures
        spec_request(
            r,
            *cfg,
            *ctx,
            match token {
                Some(t) => Some(t@),
                None => None,
            },
        ),
{
    let mut url = String::new();
    url.append(cfg.endpoint.as_str());
    url.append(ctx.path.as_str());
    proof {
        assert(url@ =~= cfg.endpoint@ + ctx.path@);
    }
    let mut auth = String::new();
    auth.append("Bearer ");
    auth.append(cfg.api_key.as_str());
    proof {
        assert(auth@ =~= "Bearer "@ + cfg.api_key@);
    }
    let mut headers: Vec<(String, String)> = Vec::new();
    headers.push((String::from_str("Authorization"), auth));
    headers.push((String::from_str("Content-Type"), String::from_str("application/json")));
    match token {
        Some(t) => {
            headers.push((String::from_str("X-PAYMENT-SATS"), t.clone()));
        },
        None => {},
    }
    match &ctx.accept {
        Some(a) => {
            headers.push((String::from_str("Accept"), a.clone()));
        },
        None => {},
    }
    UpstreamRequest { method_post: ctx.has_body, url, headers, has_body: ctx.has_body }
}

/// Reads the change signals from the upstream response headers.
pub fn settlement_plan(upstream: &Vec<(String, String)>, attempt: &PaymentAttempt) -> (r:
    SettlementPlan)
    ensures
        spec_settlement(r, upstream@, Some(*attempt)),
{
    let redeem = match crate::headers::find_header(upstream, "X-CHANGE-SATS") {
        Some(v) => Some(
            RedeemDirective {
                claim: v,
                spent_token: attempt.token.clone(),
                charged_amount: u64_to_amount(attempt.sats),
            },
        ),
        None => None,
    };
    let credit = match crate::headers::find_header(upstream, "X-CHANGE-TOKEN") {
        Some(t) => match crate::headers::find_header(upstream, "X-CHANGE-AMOUNT") {
            Some(a) => Some(CreditDirective { token: t, amount: a }),
            None => None,
        },
        None => None,
    };
    SettlementPlan { redeem, credit }
}

/// One step of the engine. The clauses carry the engine's guarantees:
/// a missing configuration answers 400 with the `server_config_missing` body
/// before anything else happens; a failed mint answers 500 with the
/// payment-error body and the upstream is never sent anything; a network
/// failure answers 500 with the gateway-error body; and an upstream send is
/// issued only from a resolved configuration, after a successful mint
/// whenever payment is required.
pub fn forward_step(ctx: &ForwardContext, phase: ForwardPhase, event: ForwardEvent) -> (r: (
    ForwardPhase,
    ForwardAction,
))
    requires
        phase_accepts(phase, event),
    ensures
        event matches ForwardEvent::ConfigResolved(None) ==> r.0 is Failed && (
        r.1 matches ForwardAction::Respond(resp) && resp.status == 400 && resp.body@
            == spec_config_missing_body()),
        event matches ForwardEvent::ConfigResolved(Some(conf)) ==> if ctx.payment_required {
            r.0 == (ForwardPhase::Minting { config: conf }) && r.1 == (ForwardAction::Mint {
                sats: PRICE_SATS,
            })
        } else {
            (r.0 matches ForwardPhase::Dispatching { minted } && minted is None) && (
            r.1 matches ForwardAction::SendUpstream(req) && spec_request(req, conf, *ctx, None))
        },
        event matches ForwardEvent::MintFinished(Err(e)) ==> r.0 is Failed && (
        r.1 matches ForwardAction::Respond(resp) && resp.status == 500 && resp.body@
            == spec_payment_error_body(e@)),
        phase matches ForwardPhase::Minting { config } ==> (event
            matches ForwardEvent::MintFinished(Ok(tok)) ==> (
        r.0 matches ForwardPhase::Dispatching { minted } && minted matches Some(att) && att.sats
            == PRICE_SATS && att.token == tok) && (
        r.1 matches ForwardAction::SendUpstream(req) && spec_request(req, config, *ctx, Some(tok@)))),
        event matches ForwardEvent::DispatchFinished(Err(e)) ==> r.0 is Failed && (
        r.1 matches ForwardAction::Respond(resp) && resp.status == 500 && resp.body@
            == spec_gateway_error_body(e@)),
        phase matches ForwardPhase::Dispatching { minted } ==> (event
            matches ForwardEvent::DispatchFinished(Ok(head)) ==> r.0 is Relaying && (
        r.1 matches ForwardAction::Proceed { response, settlement } && response.status
            == head.status && spec_response_headers(response.headers@, head.headers@, ctx.streaming)
            && spec_settlement(settlement, head.headers@, minted))),
        r.1 matches ForwardAction::SendUpstream(req) ==> (event
            matches ForwardEvent::ConfigResolved(c) && c is Some && !ctx.payment_required) || (event
            matches ForwardEvent::MintFinished(m) && m is Ok),
        ctx.payment_required && !(event matches ForwardEvent::MintFinished(m) && m is Ok) ==> !(
        r.1 matches ForwardAction::SendUpstream(req)),
        r.1 matches ForwardAction::Mint { sats } ==> sats == PRICE_SATS && (event
            matches ForwardEvent::ConfigResolved(c) && c is Some) && ctx.payment_required,
        r.0 is Failed ==> r.1 matches ForwardAction::Respond(resp),
        spec_step_guarantees(*ctx, event, r.0, r.1),
{
    match (phase, event) {
        (ForwardPhase::ResolvingConfig, ForwardEvent::ConfigResolved(found)) => match found {
            None => (
                ForwardPhase::Failed,
                ForwardAction::Respond(
                    ErrorResponse { status: 400, body: config_missing_body() },
                ),
            ),
            Some(cfg) => {
                if ctx.payment_required {
                    (ForwardPhase::Minting { config: cfg }, ForwardAction::Mint {
                        sats: PRICE_SATS,
                    })
                } else {
                    let req = build_upstream_request(&cfg, ctx, None);
                    (ForwardPhase::Dispatching { minted: None }, ForwardAction::SendUpstream(req))
                }
            },
        },
        (ForwardPhase::Minting { config }, ForwardEvent::MintFinished(outcome)) => match outcome {
            Err(e) => (
                ForwardPhase::Failed,
                ForwardAction::Respond(
                    ErrorResponse { status: 500, body: payment_error_body(e.as_str()) },
                ),
            ),
            Ok(tok) => {
                let req = build_upstream_request(&config, ctx, Some(&tok));
                (
                    ForwardPhase::Dispatching {
                        minted: Some(PaymentAttempt { sats: PRICE_SATS, token: tok }),
                    },
                    ForwardAction::SendUpstream(req),
                )
            },
        },
        (ForwardPhase::Dispatching { minted }, ForwardEvent::DispatchFinished(outcome)) => match outcome {
            Err(e) => (
                ForwardPhase::Failed,
                ForwardAction::Respond(
                    ErrorResponse { status: 500, body: gateway_error_body(e.as_str()) },
                ),
            ),
            Ok(head) => {
                let headers = filter_response_headers(&head.headers, ctx.streaming);
                let settlement = match &minted {
                    Some(att) => settlement_plan(&head.headers, att),
                    None => SettlementPlan { redeem: None, credit: None },
                };
                (ForwardPhase::Relaying, ForwardAction::Proceed {
                    response: ResponsePlan { status: head.status, headers },
                    settlement,
                })
            },
        },
        _ => vstd::pervasive::unreached(),
    }
}

pub fn chat_completions_path() -> (r: String)
    ensures
        r@ == "/v1/chat/completions"@,
{
    String::from_str("/v1/chat/completions")
}

pub fn models_path() -> (r: String)
    ensures
        r@ == "/v1/models"@,
{
    String::from_str("/v1/models")
}

pub fn model_path(model_id: &str) -> (r: String)
    ensures
        r@ == "/v1/models/"@ + model_id@,
{
    let mut s = String::from_str("/v1/models/");
    s.append(model_id);
    s
}

pub fn embeddings_path() -> (r: String)
    ensures
        r@ == "/v1/embeddings"@,
{
    String::from_str("/v1/embeddings")
}

pub fn image_generations_path() -> (r: String)
    ensures
        r@ == "/v1/images/generations"@,
{
    String::from_str("/v1/images/generations")
}

} // verus!
