//! The wallet service's API: its response shapes and, for every operation,
//! the exact request URL the client sends. Building the URL is the part of
//! each client call that computes; sending it is plain I/O and lives outside
//! the library.
use vstd::prelude::*;

verus! {

use crate::amount::int_rep;
use crate::amount::i64_to_amount;

#[derive(Debug)]
pub struct HTTPValidationError {
    pub detail: Vec<ValidationError>,
}

#[derive(Debug)]
pub struct ValidationError {
    pub loc: Vec<String>,
    pub msg: String,
    pub type_field: String,
}

#[derive(Debug)]
pub struct PaymentResponse {
    pub result: PaymentResult,
    pub checking_id: Option<String>,
    pub fee: Option<Amount>,
    pub preimage: Option<String>,
    pub error_message: Option<String>,
}

#[derive(Clone, Copy, Debug, PartialEq, Eq, Structural)]
pub enum PaymentResult {
    Success,
    Failed,
    Pending,
    Unknown,
}

#[derive(Debug)]
pub struct Amount {
    pub unit: Unit,
    pub amount: i64,
}

#[derive(Clone, Copy, Debug, PartialEq, Eq, Structural)]
pub enum Unit {
    Sat,
    Msat,
    BTC,
    USD,
    EUR,
}

#[derive(Debug)]
pub struct PaymentStatus {
    pub result: PaymentResult,
    pub fee: Option<Amount>,
    pub preimage: Option<String>,
    pub error_message: Option<String>,
}

#[derive(Debug)]
pub struct InvoiceResponse {
    pub ok: bool,
    pub checking_id: Option<String>,
    pub payment_request: Option<String>,
    pub error_message: Option<String>,
}

#[derive(Debug)]
pub struct SendResponse {
    pub balance: i64,
    pub token: String,
    pub npub: Option<String>,
}

#[derive(Clone, Copy, Debug)]
pub struct ReceiveResponse {
    pub initial_balance: i64,
    pub balance: i64,
}

#[derive(Debug)]
pub struct BurnResponse {
    pub balance: i64,
}

#[derive(Debug)]
pub struct LockResponse {
    pub p2pk: Option<String>,
}

#[derive(Debug)]
pub struct LocksResponse {
    pub locks: Vec<String>,
}

#[derive(Debug)]
pub struct BlindedMessage {
    pub amount: i64,
    pub id: String,
    pub witness: Option<String>,
}

#[derive(Debug)]
pub struct DLEQ {
    pub e: String,
    pub s: String,
}

#[derive(Debug)]
pub struct BlindedSignature {
    pub id: String,
    pub amount: i64,
    pub dleq: Option<DLEQ>,
}

#[derive(Clone, Copy, Debug, PartialEq, Eq, Structural)]
pub enum MintQuoteState {
    UNPAID,
    PAID,
    PENDING,
    ISSUED,
}

#[derive(Clone, Copy, Debug, PartialEq, Eq, Structural)]
pub enum MeltQuoteState {
    UNPAID,
    PENDING,
    PAID,
}

#[derive(Debug)]
pub struct MintQuote {
    pub quote: String,
    pub method: String,
    pub request: String,
    pub checking_id: String,
    pub unit: String,
    pub amount: i64,
    pub state: MintQuoteState,
    pub created_time: i64,
    pub paid_time: Option<i64>,
    pub expiry: Option<i64>,
    pub mint: Option<String>,
    pub privkey: Option<String>,
    pub pubkey: Option<String>,
}

#[derive(Debug)]
pub struct MeltQuote {
    pub quote: String,
    pub method: String,
    pub request: String,
    pub checking_id: String,
    pub unit: String,
    pub amount: i64,
    pub fee_reserve: i64,
    pub state: MeltQuoteState,
    pub created_time: i64,
    pub paid_time: Option<i64>,
    pub fee_paid: Option<i64>,
    pub payment_preimage: Option<String>,
    pub expiry: Option<i64>,
    pub outputs: Option<Vec<BlindedMessage>>,
    pub change: Option<Vec<BlindedSignature>>,
    pub mint: Option<String>,
}

#[derive(Debug)]
pub struct InvoicesResponse {
    pub mint_quotes: Vec<MintQuote>,
    pub melt_quotes: Vec<MeltQuote>,
}

#[derive(Debug)]
pub struct RestoreResponse {
    pub balance: i64,
}

#[derive(Debug)]
pub struct InfoResponse {
    pub version: String,
    pub wallet: String,
    pub debug: bool,
    pub cashu_dir: String,
    pub mint_urls: Vec<String>,
    pub settings: Option<String>,
    pub tor: bool,
    pub nostr_public_key: Option<String>,
    pub nostr_relays: Vec<String>,
    pub socks_proxy: Option<String>,
}

/// The answer of the redeem route, given the wallet's receive outcome: the
/// new balance as a decimal string on success; on failure no amount and the
/// fixed refusal message.
pub fn redeem_token_response(outcome: Result<ReceiveResponse, String>) -> (r:
    crate::models::TokenRedeemResponse)
    ensures
        outcome matches Ok(o) ==> r.success == true && (r.amount matches Some(a) && a@ == int_rep(
            o.balance as int,
        )) && r.message is None,
        outcome is Err ==> r.success == false && r.amount is None && (r.message matches Some(m)
            && m@ == "mal formed Token"@),
{
    match outcome {
        Ok(o) => crate::models::TokenRedeemResponse {
            amount: Some(i64_to_amount(o.balance)),
            success: true,
            message: None,
        },
        Err(_) => crate::models::TokenRedeemResponse {
            amount: None,
            success: false,
            message: Some(String::from_str("mal formed Token")),
        },
    }
}

/// View of an optional borrowed string parameter.
pub open spec fn opt_view(o: Option<&str>) -> Option<Seq<char>> {
    match o {
        Some(s) => Some(s@),
        None => None,
    }
}

pub open spec fn spec_send_url(
    base: Seq<char>,
    amount: int,
    nostr: Option<Seq<char>>,
    lock: Option<Seq<char>>,
    mint: Option<Seq<char>>,
    offline: bool,
) -> Seq<char> {
    base + "/send?amount="@ + int_rep(amount) + (match nostr {
        Some(n) => "&nostr="@ + n,
        None => Seq::empty(),
    }) + (match lock {
        Some(l) => "&lock="@ + l,
        None => Seq::empty(),
    }) + (match mint {
        Some(m) => "&mint="@ + m,
        None => Seq::empty(),
    }) + (if offline {
        "&offline=true"@
    } else {
        Seq::empty()
    })
}

/// The URL of the wallet's send operation, which mints a token.
pub fn send_url(
    base: &str,
    amount: i64,
    nostr: Option<&str>,
    lock: Option<&str>,
    mint: Option<&str>,
    offline: Option<bool>,
) -> (r: String)
    ensures
        r@ == spec_send_url(
            base@,
            amount as int,
            opt_view(nostr),
            opt_view(lock),
            opt_view(mint),
            offline == Some(true),
        ),
{
    let mut url = String::new();
    url.append(base);
    url.append("/send?amount=");
    let rendered = i64_to_amount(amount);
    url.append(rendered.as_str());
    match nostr {
        Some(n) => {
            url.append("&nostr=");
            url.append(n);
        },
        None => {},
    }
    match lock {
        Some(l) => {
            url.append("&lock=");
            url.append(l);
        },
        None => {},
    }
    match mint {
        Some(m) => {
            url.append("&mint=");
            url.append(m);
        },
        None => {},
    }
    match offline {
        Some(true) => {
            url.append("&offline=true");
        },
        _ => {},
    }
    proof {
        assert(url@ =~= spec_send_url(
            base@,
            amount as int,
            opt_view(nostr),
            opt_view(lock),
            opt_view(mint),
            offline == Some(true),
        ));
    }
    url
}

pub open spec fn spec_receive_url(
    base: Seq<char>,
    token: Option<Seq<char>>,
    nostr: bool,
    all: bool,
) -> Seq<char> {
    let p1 = token is Some;
    let p2 = p1 || nostr;
    base + "/receive"@ + (match token {
        Some(t) => "?token="@ + t,
        None => Seq::empty(),
    }) + (if nostr {
        if p1 {
            "&nostr=true"@
        } else {
            "?nostr=true"@
        }
    } else {
        Seq::empty()
    }) + (if all {
        if p2 {
            "&all=true"@
        } else {
            "?all=true"@
        }
    } else {
        Seq::empty()
    })
}

/// The URL of the wallet's receive operation, which redeems a token or an
/// amount claim into the wallet; each flag joins the query with `?` or `&`
/// depending on whether an earlier parameter is present.
pub fn receive_url(base: &str, token: Option<&str>, nostr: Option<bool>, all: Option<bool>) -> (r:
    String)
    ensures
        r@ == spec_receive_url(base@, opt_view(token), nostr == Some(true), all == Some(true)),
{
    let mut url = String::new();
    url.append(base);
    url.append("/receive");
    let mut has_param = false;
    match token {
        Some(t) => {
            url.append("?token=");
            url.append(t);
            has_param = true;
        },
        None => {},
    }
    match nostr {
        Some(true) => {
            if has_param {
                url.append("&nostr=true");
            } else {
                url.append("?nostr=true");
                has_param = true;
            }
        },
        _ => {},
    }
    match all {
        Some(true) => {
            if has_param {
                url.append("&all=true");
            } else {
                url.append("?all=true");
            }
        },
        _ => {},
    }
    proof {
        assert(url@ =~= spec_receive_url(
            base@,
            opt_view(token),
            nostr == Some(true),
            all == Some(true),
        ));
    }
    url
}

pub open spec fn spec_burn_url(
    base: Seq<char>,
    token: Option<Seq<char>>,
    all: bool,
    force: bool,
    delete: Option<Seq<char>>,
    mint: Option<Seq<char>>,
) -> Seq<char> {
    let p1 = token is Some;
    let p2 = p1 || all;
    let p3 = p2 || force;
    let p4 = p3 || delete is Some;
    base + "/burn"@ + (match token {
        Some(t) => "?token="@ + t,
        None => Seq::empty(),
    }) + (if all {
        if p1 {
            "&all=true"@
        } else {
            "?all=true"@
        }
    } else {
        Seq::empty()
    }) + (if force {
        if p2 {
            "&force=true"@
        } else {
            "?force=true"@
        }
    } else {
        Seq::empty()
    }) + (match delete {
        Some(d) => (if p3 {
            "&delete="@
        } else {
            "?delete="@
        }) + d,
        None => Seq::empty(),
    }) + (match mint {
        Some(m) => (if p4 {
            "&mint="@
        } else {
            "?mint="@
        }) + m,
        None => Seq::empty(),
    })
}

/// The URL of the wallet's burn operation; each flag joins the query with
/// `?` or `&` depending on whether an earlier parameter is present.
pub fn burn_url(
    base: &str,
    token: Option<&str>,
    all: Option<bool>,
    force: Option<bool>,
    delete: Option<&str>,
    mint: Option<&str>,
) -> (r: String)
    ensures
        r@ == spec_burn_url(
            base@,
            opt_view(token),
            all == Some(true),
            force == Some(true),
            opt_view(delete),
            opt_view(mint),
        ),
{
    let mut url = String::new();
    url.append(base);
    url.append("/burn");
    let mut has_param = false;
    match token {
        Some(t) => {
            url.append("?token=");
            url.append(t);
            has_param = true;
        },
        None => {},
    }
    match all {
        Some(true) => {
            if has_param {
                url.append("&all=true");
            } else {
                url.append("?all=true");
                has_param = true;
            }
        },
        _ => {},
    }
    match force {
        Some(true) => {
            if has_param {
                url.append("&force=true");
            } else {
                url.append("?force=true");
                has_param = true;
            }
        },
        _ => {},
    }
    match delete {
        Some(d) => {
            if has_param {
                url.append("&delete=");
            } else {
                url.append("?delete=");
                has_param = true;
            }
            url.append(d);
        },
        None => {},
    }
    match mint {
        Some(m) => {
            if has_param {
                url.append("&mint=");
            } else {
                url.append("?mint=");
            }
            url.append(m);
        },
        None => {},
    }
    proof {
        assert(url@ =~= spec_burn_url(
            base@,
            opt_view(token),
            all == Some(true),
            force == Some(true),
            opt_view(delete),
            opt_view(mint),
        ));
    }
    url
}

pub open spec fn spec_pending_url(
    base: Seq<char>,
    number: Option<int>,
    offset: Option<int>,
) -> Seq<char> {
    base + "/pending"@ + (match number {
        Some(n) => "?number="@ + int_rep(n),
        None => Seq::empty(),
    }) + (match offset {
        Some(o) => (if number is Some {
            "&offset="@
        } else {
            "?offset="@
        }) + int_rep(o),
        None => Seq::empty(),
    })
}

pub open spec fn opt_int_view(o: Option<i64>) -> Option<int> {
    match o {
        Some(v) => Some(v as int),
        None => None,
    }
}

/// The URL of the wallet's pending listing.
pub fn pending_url(base: &str, number: Option<i64>, offset: Option<i64>) -> (r: String)
    ensures
        r@ == spec_pending_url(base@, opt_int_view(number), opt_int_view(offset)),
{
    let mut url = String::new();
    url.append(base);
    url.append("/pending");
    let mut has_param = false;
    match number {
        Some(n) => {
            url.append("?number=");
            let rendered = i64_to_amount(n);
            url.append(rendered.as_str());
            has_param = true;
        },
        None => {},
    }
    match offset {
        Some(o) => {
            if has_param {
                url.append("&offset=");
            } else {
                url.append("?offset=");
            }
            let rendered = i64_to_amount(o);
            url.append(rendered.as_str());
        },
        None => {},
    }
    proof {
        assert(url@ =~= spec_pending_url(base@, opt_int_view(number), opt_int_view(offset)));
    }
    url
}

pub open spec fn spec_payment_state_url(
    base: Seq<char>,
    payment_hash: Option<Seq<char>>,
    mint: Option<Seq<char>>,
) -> Seq<char> {
    base + "/lightning/payment_state"@ + (match payment_hash {
        Some(h) => "?payment_hash="@ + h + (match mint {
            Some(m) => "&mint="@ + m,
            None => Seq::empty(),
        }),
        None => match mint {
            Some(m) => "?mint="@ + m,
            None => Seq::empty(),
        },
    })
}

/// The URL of the wallet's payment-state query; the mint is only carried
/// alongside a payment hash or alone.
pub fn payment_state_url(base: &str, payment_hash: Option<&str>, mint: Option<&str>) -> (r: String)
    ensures
        r@ == spec_payment_state_url(base@, opt_view(payment_hash), opt_view(mint)),
{
    let mut url = String::new();
    url.append(base);
    url.append("/lightning/payment_state");
    match payment_hash {
        Some(h) => {
            url.append("?payment_hash=");
            url.append(h);
            match mint {
                Some(m) => {
                    url.append("&mint=");
                    url.append(m);
                },
                None => {},
            }
        },
        None => {
            match mint {
                Some(m) => {
                    url.append("?mint=");
                    url.append(m);
                },
                None => {},
            }
        },
    }
    proof {
        assert(url@ =~= spec_payment_state_url(base@, opt_view(payment_hash), opt_view(mint)));
    }
    url
}

pub open spec fn spec_invoice_state_url(
    base: Seq<char>,
    payment_request: Option<Seq<char>>,
    mint: Option<Seq<char>>,
) -> Seq<char> {
    base + "/lightning/invoice_state"@ + (match payment_request {
        Some(p) => "?payment_request="@ + p + (match mint {
            Some(m) => "&mint="@ + m,
            None => Seq::empty(),
        }),
        None => match mint {
            Some(m) => "?mint="@ + m,
            None => Seq::empty(),
        },
    })
}

/// The URL of the wallet's invoice-state query.
pub fn invoice_state_url(base: &str, payment_request: Option<&str>, mint: Option<&str>) -> (r:
    String)
    ensures
        r@ == spec_invoice_state_url(base@, opt_view(payment_request), opt_view(mint)),
{
    let mut url = String::new();
    url.append(base);
    url.append("/lightning/invoice_state");
    match payment_request {
        Some(p) => {
            url.append("?payment_request=");
            url.append(p);
            match mint {
                Some(m) => {
                    url.append("&mint=");
                    url.append(m);
                },
                None => {},
            }
        },
        None => {
            match mint {
                Some(m) => {
                    url.append("?mint=");
                    url.append(m);
                },
                None => {},
            }
        },
    }
    proof {
        assert(url@ =~= spec_invoice_state_url(base@, opt_view(payment_request), opt_view(mint)));
    }
    url
}

pub open spec fn spec_pay_invoice_url(
    base: Seq<char>,
    bolt11: Seq<char>,
    mint: Option<Seq<char>>,
) -> Seq<char> {
    base + "/lightning/pay_invoice?bolt11="@ + bolt11 + (match mint {
        Some(m) => "&mint="@ + m,
        None => Seq::empty(),
    })
}

/// The URL of the wallet's invoice payment.
pub fn pay_invoice_url(base: &str, bolt11: &str, mint: Option<&str>) -> (r: String)
    ensures
        r@ == spec_pay_invoice_url(base@, bolt11@, opt_view(mint)),
{
    let mut url = String::new();
    url.append(base);
    url.append("/lightning/pay_invoice?bolt11=");
    url.append(bolt11);
    match mint {
        Some(m) => {
            url.append("&mint=");
            url.append(m);
        },
        None => {},
    }
    proof {
        assert(url@ =~= spec_pay_invoice_url(base@, bolt11@, opt_view(mint)));
    }
    url
}

pub open spec fn spec_create_invoice_url(
    base: Seq<char>,
    amount: int,
    mint: Option<Seq<char>>,
) -> Seq<char> {
    base + "/lightning/create_invoice?amount="@ + int_rep(amount) + (match mint {
        Some(m) => "&mint="@ + m,
        None => Seq::empty(),
    })
}

/// The URL of the wallet's invoice creation.
pub fn create_invoice_url(base: &str, amount: i64, mint: Option<&str>) -> (r: String)
    ensures
        r@ == spec_create_invoice_url(base@, amount as int, opt_view(mint)),
{
    let mut url = String::new();
    url.append(base);
    url.append("/lightning/create_invoice?amount=");
    let rendered = i64_to_amount(amount);
    url.append(rendered.as_str());
    match mint {
        Some(m) => {
            url.append("&mint=");
            url.append(m);
        },
        None => {},
    }
    proof {
        assert(url@ =~= spec_create_invoice_url(base@, amount as int, opt_view(mint)));
    }
    url
}

pub open spec fn spec_swap_url(
    base: Seq<char>,
    amount: int,
    outgoing_mint: Seq<char>,
    incoming_mint: Seq<char>,
) -> Seq<char> {
    base + "/swap?amount="@ + int_rep(amount) + "&outgoing_mint="@ + outgoing_mint
        + "&incoming_mint="@ + incoming_mint
}

/// The URL of the wallet's swap between two mints.
pub fn swap_url(base: &str, amount: i64, outgoing_mint: &str, incoming_mint: &str) -> (r: String)
    ensures
        r@ == spec_swap_url(base@, amount as int, outgoing_mint@, incoming_mint@),
{
    let mut url = String::new();
    url.append(base);
    url.append("/swap?amount=");
    let rendered = i64_to_amount(amount);
    url.append(rendered.as_str());
    url.append("&outgoing_mint=");
    url.append(outgoing_mint);
    url.append("&incoming_mint=");
    url.append(incoming_mint);
    proof {
        assert(url@ =~= spec_swap_url(base@, amount as int, outgoing_mint@, incoming_mint@));
    }
    url
}

/// The URL of the wallet's restore operation.
pub fn restore_url(base: &str, to: i64) -> (r: String)
    ensures
        r@ == base@ + "/v1/restore?to="@ + int_rep(to as int),
{
    let mut url = String::new();
    url.append(base);
    url.append("/v1/restore?to=");
    let rendered = i64_to_amount(to);
    url.append(rendered.as_str());
    proof {
        assert(url@ =~= base@ + "/v1/restore?to="@ + int_rep(to as int));
    }
    url
}

/// The URL of the wallet's ecash balance.
pub fn balance_url(base: &str) -> (r: String)
    ensures
        r@ == base@ + "/balance"@,
{
    let mut url = String::new();
    url.append(base);
    url.append("/balance");
    proof {
        assert(url@ =~= base@ + "/balance"@);
    }
    url
}

/// The URL of the wallet's lightning balance.
pub fn lightning_balance_url(base: &str) -> (r: String)
    ensures
        r@ == base@ + "/lightning/balance"@,
{
    let mut url = String::new();
    url.append(base);
    url.append("/lightning/balance");
    proof {
        assert(url@ =~= base@ + "/lightning/balance"@);
    }
    url
}

/// The URL of the wallet's lock key.
pub fn lock_url(base: &str) -> (r: String)
    ensures
        r@ == base@ + "/lock"@,
{
    let mut url = String::new();
    url.append(base);
    url.append("/lock");
    proof {
        assert(url@ =~= base@ + "/lock"@);
    }
    url
}

/// The URL of the wallet's lock listing.
pub fn locks_url(base: &str) -> (r: String)
    ensures
        r@ == base@ + "/locks"@,
{
    let mut url = String::new();
    url.append(base);
    url.append("/locks");
    proof {
        assert(url@ =~= base@ + "/locks"@);
    }
    url
}

/// The URL of the wallet's invoice listing.
pub fn invoices_url(base: &str) -> (r: String)
    ensures
        r@ == base@ + "/invoices"@,
{
    let mut url = String::new();
    url.append(base);
    url.append("/invoices");
    proof {
        assert(url@ =~= base@ + "/invoices"@);
    }
    url
}

/// The URL of the wallet listing.
pub fn wallets_url(base: &str) -> (r: String)
    ensures
        r@ == base@ + "/wallets"@,
{
    let mut url = String::new();
    url.append(base);
    url.append("/wallets");
    proof {
        assert(url@ =~= base@ + "/wallets"@);
    }
    url
}

/// The URL of the wallet's build information.
pub fn info_url(base: &str) -> (r: String)
    ensures
        r@ == base@ + "/info"@,
{
    let mut url = String::new();
    url.append(base);
    url.append("/info");
    proof {
        assert(url@ =~= base@ + "/info"@);
    }
    url
}

} // verus!
