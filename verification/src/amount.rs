//! Monetary amounts are carried as decimal strings end to end; no value ever
//! passes through a floating-point representation. This module renders and
//! reads those strings and proves the two directions invert each other.
use vstd::prelude::*;

verus! {

use crate::text::push_char;

pub open spec fn is_dec_digit(c: char) -> bool {
    '0' <= c && c <= '9'
}

/// The digit character for a value between 0 and 9.
pub open spec fn digit_char(d: int) -> char
    recommends
        0 <= d < 10,
{
    ((48 + d) as u8) as char
}

/// The decimal rendering of a natural number, most significant digit first,
/// with no sign, no leading zeros (except for 0 itself) and no fraction part.
pub open spec fn dec_rep(n: nat) -> Seq<char>
    decreases n,
{
    if n < 10 {
        seq![digit_char(n as int)]
    } else {
        dec_rep(n / 10) + seq![digit_char((n % 10) as int)]
    }
}

/// The decimal rendering of a signed number: a leading '-' for negatives.
pub open spec fn int_rep(n: int) -> Seq<char> {
    if n >= 0 {
        dec_rep(n as nat)
    } else {
        seq!['-'] + dec_rep((-n) as nat)
    }
}

/// The numeric value of a sequence of decimal digits.
pub open spec fn dec_val(s: Seq<char>) -> int
    decreases s.len(),
{
    if s.len() == 0 {
        0
    } else {
        dec_val(s.drop_last()) * 10 + (s.last() as int - 48)
    }
}

fn digit_char_exec(d: u64) -> (c: char)
    requires
        d < 10,
    ensures
        c == digit_char(d as int),
{
    (48 + d as u8) as char
}

/// Renders an amount of sats as its decimal string.
pub fn u64_to_amount(n: u64) -> (s: String)
    ensures
        s@ == dec_rep(n as nat),
    decreases n,
{
    if n < 10 {
        let mut s = String::new();
        push_char(&mut s, digit_char_exec(n));
        proof {
            assert(s@ =~= dec_rep(n as nat));
        }
        s
    } else {
        let mut s = u64_to_amount(n / 10);
        push_char(&mut s, digit_char_exec(n % 10));
        proof {
            assert(s@ =~= dec_rep(n as nat));
        }
        s
    }
}

/// Renders a signed amount (a balance difference) as its decimal string.
pub fn i64_to_amount(n: i64) -> (s: String)
    ensures
        s@ == int_rep(n as int),
{
    if n >= 0 {
        u64_to_amount(n as u64)
    } else {
        // i64::MIN has no i64 negation; take the magnitude in u64.
        let mag: u64 = if n == i64::MIN {
            9223372036854775808
        } else {
            (-n) as u64
        };
        let mut s = String::new();
        push_char(&mut s, '-');
        let digits = u64_to_amount(mag);
        s.append(digits.as_str());
        proof {
            assert(s@ =~= int_rep(n as int));
        }
        s
    }
}

/// The digit characters read back as the digits they render.
proof fn lemma_digit_char_val(d: int)
    requires
        0 <= d < 10,
    ensures
        digit_char(d) as int == 48 + d,
        is_dec_digit(digit_char(d)),
{
}

/// All-digit strings have nonnegative values.
proof fn lemma_dec_val_nonneg(s: Seq<char>)
    requires
        forall|j: int| 0 <= j < s.len() ==> is_dec_digit(s[j]),
    ensures
        dec_val(s) >= 0,
    decreases s.len(),
{
    if s.len() > 0 {
        lemma_dec_val_nonneg(s.drop_last());
        assert(dec_val(s.drop_last()) * 10 >= 0) by (nonlinear_arith)
            requires
                dec_val(s.drop_last()) >= 0,
        ;
    }
}

/// More digits never shrink the value of an all-digit string.
proof fn lemma_dec_val_monotone(s: Seq<char>, i: int)
    requires
        0 <= i <= s.len(),
        forall|j: int| 0 <= j < s.len() ==> is_dec_digit(s[j]),
    ensures
        dec_val(s) >= dec_val(s.take(i)),
    decreases s.len() - i,
{
    if i < s.len() {
        assert(forall|j: int| 0 <= j < i ==> is_dec_digit(#[trigger] s.take(i)[j]));
        lemma_dec_val_nonneg(s.take(i));
        assert(s.take(i + 1).drop_last() =~= s.take(i));
        assert(dec_val(s.take(i + 1)) == dec_val(s.take(i)) * 10 + (s[i] as int - 48));
        assert(dec_val(s.take(i)) * 10 >= dec_val(s.take(i))) by (nonlinear_arith)
            requires
                dec_val(s.take(i)) >= 0,
        ;
        lemma_dec_val_monotone(s, i + 1);
    } else {
        assert(s.take(i) =~= s);
    }
}

/// Reads a decimal string back into a number: `Some` exactly on nonempty
/// all-digit strings whose value fits in a `u64`.
pub fn parse_amount(s: &str) -> (r: Option<u64>)
    ensures
        match r {
            Some(v) => s@.len() > 0 && (forall|i: int|
                0 <= i < s@.len() ==> is_dec_digit(s@[i])) && v as int == dec_val(s@),
            None => s@.len() == 0 || (exists|i: int| 0 <= i < s@.len() && !is_dec_digit(s@[i]))
                || dec_val(s@) > u64::MAX,
        },
{
    let n = s.unicode_len();
    if n == 0 {
        return None;
    }
    let mut acc: u64 = 0;
    let mut i: usize = 0;
    while i < n
        invariant
            i <= n,
            n == s@.len(),
            forall|j: int| 0 <= j < i ==> is_dec_digit(s@[j]),
            acc as int == dec_val(s@.take(i as int)),
        decreases n - i,
    {
        let c = s.get_char(i);
        let cv = c as u32;
        if cv < 48 || cv > 57 {
            return None;
        }
        let d: u64 = (cv - 48) as u64;
        proof {
            assert(s@.take(i + 1).drop_last() =~= s@.take(i as int));
            assert(dec_val(s@.take(i + 1)) == acc as int * 10 + d);
        }
        let overflowed = match acc.checked_mul(10) {
            Some(x) => match x.checked_add(d) {
                Some(y) => {
                    acc = y;
                    false
                },
                None => true,
            },
            None => true,
        };
        if overflowed {
            proof {
                if forall|j: int| 0 <= j < s@.len() ==> is_dec_digit(s@[j]) {
                    lemma_dec_val_monotone(s@, i + 1);
                }
            }
            return None;
        }
        i += 1;
    }
    proof {
        assert(s@.take(n as int) =~= s@);
    }
    Some(acc)
}

/// Reading a rendered amount gives back the number: the decimal string is
/// exact, with no rounding and no float detour.
pub proof fn lemma_amount_round_trip(n: nat)
    ensures
        dec_val(dec_rep(n)) == n,
        forall|i: int| 0 <= i < dec_rep(n).len() ==> is_dec_digit(#[trigger] dec_rep(n)[i]),
    decreases n,
{
    if n < 10 {
        lemma_digit_char_val(n as int);
        assert(dec_rep(n) == seq![digit_char(n as int)]);
        assert(dec_rep(n).drop_last() =~= Seq::<char>::empty());
        assert(dec_val(Seq::<char>::empty()) == 0);
        assert(dec_rep(n).last() == digit_char(n as int));
        assert(dec_val(dec_rep(n)) == dec_val(dec_rep(n).drop_last()) * 10 + (dec_rep(
            n,
        ).last() as int - 48));
    } else {
        lemma_amount_round_trip(n / 10);
        lemma_digit_char_val((n % 10) as int);
        assert(dec_rep(n).drop_last() =~= dec_rep(n / 10));
        assert(dec_rep(n).last() == digit_char((n % 10) as int));
        assert(dec_val(dec_rep(n)) == dec_val(dec_rep(n / 10)) * 10 + (dec_rep(n).last() as int
            - 48));
    }
}

} // verus!
