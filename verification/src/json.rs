//! The uniform error body `{"error":{...}}` that every failing route returns,
//! rendered directly as JSON text with verified string escaping.
use vstd::prelude::*;

verus! {

use crate::text::push_char;

/// Hex digit for a value between 0 and 15, lower case.
pub open spec fn hex_digit_char(d: int) -> char
    recommends
        0 <= d < 16,
{
    if d < 10 {
        ((48 + d) as u8) as char
    } else {
        ((87 + d) as u8) as char
    }
}

/// How one character appears inside a JSON string literal: quotes and
/// backslashes are escaped, control characters take a short or `\u00XX`
/// escape, everything else stands as itself.
pub open spec fn escaped_char(c: char) -> Seq<char> {
    if c == '"' {
        seq!['\\', '"']
    } else if c == '\\' {
        seq!['\\', '\\']
    } else if c == '\n' {
        seq!['\\', 'n']
    } else if c == '\r' {
        seq!['\\', 'r']
    } else if c == '\t' {
        seq!['\\', 't']
    } else if (c as int) < 32 {
        seq!['\\', 'u', '0', '0', hex_digit_char(c as int / 16), hex_digit_char(c as int % 16)]
    } else {
        seq![c]
    }
}

/// A whole character sequence escaped for inclusion in a JSON string.
pub open spec fn json_escaped(s: Seq<char>) -> Seq<char>
    decreases s.len(),
{
    if s.len() == 0 {
        Seq::empty()
    } else {
        json_escaped(s.drop_last()) + escaped_char(s.last())
    }
}

fn hex_digit_exec(d: u32) -> (c: char)
    requires
        d < 16,
    ensures
        c == hex_digit_char(d as int),
{
    if d < 10 {
        ((48 + d) as u8) as char
    } else {
        ((87 + d) as u8) as char
    }
}

fn push_escaped_char(out: &mut String, c: char)
    ensures
        final(out)@ == old(out)@ + escaped_char(c),
{
    if c == '"' {
        push_char(out, '\\');
        push_char(out, '"');
        proof {
            assert(out@ =~= old(out)@ + escaped_char(c));
        }
    } else if c == '\\' {
        push_char(out, '\\');
        push_char(out, '\\');
        proof {
            assert(out@ =~= old(out)@ + escaped_char(c));
        }
    } else if c == '\n' {
        push_char(out, '\\');
        push_char(out, 'n');
        proof {
            assert(out@ =~= old(out)@ + escaped_char(c));
        }
    } else if c == '\r' {
        push_char(out, '\\');
        push_char(out, 'r');
        proof {
            assert(out@ =~= old(out)@ + escaped_char(c));
        }
    } else if c == '\t' {
        push_char(out, '\\');
        push_char(out, 't');
        proof {
            assert(out@ =~= old(out)@ + escaped_char(c));
        }
    } else {
        let cv = c as u32;
        if cv < 32 {
            push_char(out, '\\');
            push_char(out, 'u');
            push_char(out, '0');
            push_char(out, '0');
            push_char(out, hex_digit_exec(cv / 16));
            push_char(out, hex_digit_exec(cv % 16));
            proof {
                assert(out@ =~= old(out)@ + escaped_char(c));
            }
        } else {
            push_char(out, c);
            proof {
                assert(out@ =~= old(out)@ + escaped_char(c));
            }
        }
    }
}

/// Escapes a string for inclusion between quotes in JSON text.
pub fn json_escape(s: &str) -> (r: String)
    ensures
        r@ == json_escaped(s@),
{
    let n = s.unicode_len();
    let mut out = String::new();
    let mut i: usize = 0;
    while i < n
        invariant
            i <= n,
            n == s@.len(),
            out@ == json_escaped(s@.take(i as int)),
        decreases n - i,
    {
        let c = s.get_char(i);
        push_escaped_char(&mut out, c);
        proof {
            assert(s@.take(i + 1).drop_last() =~= s@.take(i as int));
            assert(s@.take(i + 1).last() == s@[i as int]);
        }
        i += 1;
    }
    proof {
        assert(s@.take(n as int) =~= s@);
    }
    out
}

/// The fixed body returned when no server configuration exists.
pub open spec fn spec_config_missing_body() -> Seq<char> {
    "{\"error\":{\"message\":\"Server configuration missing. Cannot process request without a configured endpoint.\",\"type\":\"server_error\",\"param\":null,\"code\":\"server_config_missing\"}}"@
}

/// The body returned when minting the payment token fails, carrying the
/// wallet's error text.
pub open spec fn spec_payment_error_body(detail: Seq<char>) -> Seq<char> {
    "{\"error\":{\"message\":\"Failed to generate payment token: "@ + json_escaped(detail)
        + "\",\"type\":\"payment_error\"}}"@
}

/// The body returned when the upstream call fails at the network level.
pub open spec fn spec_gateway_error_body(detail: Seq<char>) -> Seq<char> {
    "{\"error\":{\"message\":\"Error forwarding request: "@ + json_escaped(detail)
        + "\",\"type\":\"gateway_error\"}}"@
}

pub fn config_missing_body() -> (r: String)
    ensures
        r@ == spec_config_missing_body(),
{
    String::from_str(
        "{\"error\":{\"message\":\"Server configuration missing. Cannot process request without a configured endpoint.\",\"type\":\"server_error\",\"param\":null,\"code\":\"server_config_missing\"}}",
    )
}

pub fn payment_error_body(detail: &str) -> (r: String)
    ensures
        r@ == spec_payment_error_body(detail@),
{
    let mut s = String::new();
    s.append("{\"error\":{\"message\":\"Failed to generate payment token: ");
    let esc = json_escape(detail);
    s.append(esc.as_str());
    s.append("\",\"type\":\"payment_error\"}}");
    proof {
        assert(s@ =~= spec_payment_error_body(detail@));
    }
    s
}

/// The body reporting the wallet's current balance.
pub fn balance_body(balance: i64) -> (r: String)
    ensures
        r@ == "{\"balance\":\""@ + crate::amount::int_rep(balance as int) + "\"}"@,
{
    let mut s = String::new();
    s.append("{\"balance\":\"");
    let rendered = crate::amount::i64_to_amount(balance);
    s.append(rendered.as_str());
    s.append("\"}");
    proof {
        assert(s@ =~= "{\"balance\":\""@ + crate::amount::int_rep(balance as int) + "\"}"@);
    }
    s
}

pub fn gateway_error_body(detail: &str) -> (r: String)
    ensures
        r@ == spec_gateway_error_body(detail@),
{
    let mut s = String::new();
    s.append("{\"error\":{\"message\":\"Error forwarding request: ");
    let esc = json_escape(detail);
    s.append(esc.as_str());
    s.append("\",\"type\":\"gateway_error\"}}");
    proof {
        assert(s@ =~= spec_gateway_error_body(detail@));
    }
    s
}

} // verus!
