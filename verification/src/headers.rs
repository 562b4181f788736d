//! HTTP headers as plain name/value pairs: case-insensitive lookup, and the
//! hop-by-hop exclusion applied when upstream headers are mirrored onto the
//! outbound response.
use vstd::prelude::*;

verus! {

use crate::text::eq_ignore_case;
use crate::text::str_eq_ignore_case;

/// The value of the first header whose name matches case-insensitively.
pub open spec fn header_lookup(hs: Seq<(String, String)>, name: Seq<char>) -> Option<Seq<char>>
    decreases hs.len(),
{
    if hs.len() == 0 {
        None
    } else if eq_ignore_case(hs.first().0@, name) {
        Some(hs.first().1@)
    } else {
        header_lookup(hs.drop_first(), name)
    }
}

pub fn find_header(hs: &Vec<(String, String)>, name: &str) -> (r: Option<String>)
    ensures
        match r {
            Some(v) => header_lookup(hs@, name@) == Some(v@),
            None => header_lookup(hs@, name@) is None,
        },
{
    let n = hs.len();
    let mut i: usize = 0;
    proof {
        assert(hs@.skip(0) =~= hs@);
    }
    while i < n
        invariant
            i <= n,
            n == hs@.len(),
            header_lookup(hs@, name@) == header_lookup(hs@.skip(i as int), name@),
        decreases n - i,
    {
        proof {
            assert(hs@.skip(i as int).first() == hs@[i as int]);
            assert(hs@.skip(i as int).drop_first() =~= hs@.skip(i + 1));
        }
        if str_eq_ignore_case(hs[i].0.as_str(), name) {
            return Some(hs[i].1.clone());
        }
        i += 1;
    }
    proof {
        assert(hs@.skip(n as int) =~= Seq::<(String, String)>::empty());
    }
    None
}

pub fn contains_header(hs: &Vec<(String, String)>, name: &str) -> (r: bool)
    ensures
        r == (header_lookup(hs@, name@) is Some),
{
    match find_header(hs, name) {
        Some(_) => true,
        None => false,
    }
}

/// Headers that survive the mirror onto the outbound response: everything but
/// the hop-by-hop `connection` and `transfer-encoding`, whose framing belongs
/// to each individual connection and must not be replayed under new framing.
pub open spec fn kept_header(h: (String, String)) -> bool {
    !eq_ignore_case(h.0@, "connection"@) && !eq_ignore_case(h.0@, "transfer-encoding"@)
}

/// The upstream headers with the hop-by-hop pair removed, order preserved.
pub open spec fn spec_kept_headers(hs: Seq<(String, String)>) -> Seq<(String, String)> {
    hs.filter(|h: (String, String)| kept_header(h))
}

fn keep_header(h: &(String, String)) -> (r: bool)
    ensures
        r == kept_header(*h),
{
    !str_eq_ignore_case(h.0.as_str(), "connection") && !str_eq_ignore_case(
        h.0.as_str(),
        "transfer-encoding",
    )
}

/// The headers of the outbound response, given the upstream response headers:
/// in streaming mode a default `Content-Type: text/event-stream` is put first
/// when upstream set none; then every upstream header except the hop-by-hop
/// pair, in upstream order.
pub fn filter_response_headers(upstream: &Vec<(String, String)>, streaming: bool) -> (r: Vec<
    (String, String),
>)
    ensures
        streaming && header_lookup(upstream@, "Content-Type"@) is None ==> r@.len()
            == spec_kept_headers(upstream@).len() + 1 && r@[0].0@ == "Content-Type"@ && r@[0].1@
            == "text/event-stream"@ && r@.skip(1) == spec_kept_headers(upstream@),
        !(streaming && header_lookup(upstream@, "Content-Type"@) is None) ==> r@
            == spec_kept_headers(upstream@),
{
    let mut out: Vec<(String, String)> = Vec::new();
    if streaming && !contains_header(upstream, "Content-Type") {
        out.push((String::from_str("Content-Type"), String::from_str("text/event-stream")));
    }
    let ghost prefix: Seq<(String, String)> = out@;
    let n = upstream.len();
    let mut i: usize = 0;
    while i < n
        invariant
            i <= n,
            n == upstream@.len(),
            out@ == prefix + upstream@.take(i as int).filter(|h: (String, String)| kept_header(h)),
        decreases n - i,
    {
        proof {
            reveal(Seq::filter);
            assert(upstream@.take(i + 1).drop_last() =~= upstream@.take(i as int));
            assert(upstream@.take(i + 1).last() == upstream@[i as int]);
        }
        if keep_header(&upstream[i]) {
            out.push((upstream[i].0.clone(), upstream[i].1.clone()));
            proof {
                assert(out@ =~= prefix + upstream@.take(i + 1).filter(
                    |h: (String, String)| kept_header(h),
                ));
            }
        } else {
            proof {
                assert(out@ =~= prefix + upstream@.take(i + 1).filter(
                    |h: (String, String)| kept_header(h),
                ));
            }
        }
        i += 1;
    }
    proof {
        assert(upstream@.take(n as int) =~= upstream@);
        if prefix.len() > 0 {
            assert(out@.skip(1) =~= spec_kept_headers(upstream@));
        } else {
            assert(out@ =~= spec_kept_headers(upstream@));
        }
    }
    out
}

} // verus!
