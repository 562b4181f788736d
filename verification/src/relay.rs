//! The body relay: upstream chunks are passed to the caller one by one, in
//! order; the first read failure is forwarded as a single terminal error
//! item, which ends the stream. Nothing is retried and nothing is injected
//! into a cleanly closing stream.
use vstd::prelude::*;

verus! {


/// One item read from the upstream body stream.
pub enum RelayItem {
    Chunk(Vec<u8>),
    Failure(String),
}

/// One item handed to the caller.
pub enum RelayOut {
    Data(Vec<u8>),
    Terminal(String),
}

/// The value of an output item, for specification purposes.
pub enum RelayView {
    Data(Seq<u8>),
    Terminal(Seq<char>),
}

pub open spec fn relay_out_view(o: RelayOut) -> RelayView {
    match o {
        RelayOut::Data(d) => RelayView::Data(d@),
        RelayOut::Terminal(m) => RelayView::Terminal(m@),
    }
}

/// The message wrapped around an upstream read error before it is forwarded.
pub open spec fn spec_upstream_error_text(e: Seq<char>) -> Seq<char> {
    "Error reading from upstream: "@ + e
}

/// Everything the caller receives for a given upstream item sequence: each
/// chunk as it came, in order, cut short by the first failure, which appears
/// as one terminal error item.
pub open spec fn spec_relay(items: Seq<RelayItem>) -> Seq<RelayView>
    decreases items.len(),
{
    if items.len() == 0 {
        Seq::empty()
    } else {
        match items.first() {
            RelayItem::Chunk(c) => seq![RelayView::Data(c@)] + spec_relay(items.drop_first()),
            RelayItem::Failure(e) => seq![RelayView::Terminal(spec_upstream_error_text(e@))],
        }
    }
}

/// Forwards one upstream item: a chunk goes through unchanged and the relay
/// continues; a failure becomes the terminal error item and the relay stops.
pub fn relay_item(item: RelayItem) -> (r: (RelayOut, bool))
    ensures
        item matches RelayItem::Chunk(c) ==> (r.0 matches RelayOut::Data(d) && d == c) && r.1
            == false,
        item matches RelayItem::Failure(e) ==> (r.0 matches RelayOut::Terminal(m) && m@
            == spec_upstream_error_text(e@)) && r.1 == true,
{
    match item {
        RelayItem::Chunk(c) => (RelayOut::Data(c), false),
        RelayItem::Failure(e) => {
            let mut m = String::new();
            m.append("Error reading from upstream: ");
            m.append(e.as_str());
            proof {
                assert(m@ =~= spec_upstream_error_text(e@));
            }
            (RelayOut::Terminal(m), true)
        },
    }
}

/// The whole relay on a finished upstream item sequence: what a caller that
/// stays connected receives.
pub fn relay_all(items: Vec<RelayItem>) -> (out: Vec<RelayOut>)
    ensures
        out@.map_values(|o: RelayOut| relay_out_view(o)) == spec_relay(items@),
    decreases items@.len(),
{
    let mut items = items;
    if items.len() == 0 {
        let out: Vec<RelayOut> = Vec::new();
        proof {
            assert(out@.map_values(|o: RelayOut| relay_out_view(o)) =~= spec_relay(items@));
        }
        out
    } else {
        let ghost whole = items@;
        let head = items.remove(0);
        proof {
            assert(items@ =~= whole.drop_first());
            assert(head == whole.first());
        }
        let (o, stop) = relay_item(head);
        if stop {
            let mut out: Vec<RelayOut> = Vec::new();
            out.push(o);
            proof {
                assert(out@.map_values(|x: RelayOut| relay_out_view(x)) =~= spec_relay(whole));
            }
            out
        } else {
            let rest = relay_all(items);
            let mut out = rest;
            out.insert(0, o);
            proof {
                assert(out@.map_values(|x: RelayOut| relay_out_view(x)) =~= spec_relay(whole));
            }
            out
        }
    }
}

/// The data of a chunk item; empty for a failure item.
pub open spec fn chunk_data(item: RelayItem) -> Seq<u8> {
    match item {
        RelayItem::Chunk(c) => c@,
        RelayItem::Failure(_) => Seq::empty(),
    }
}

/// A cleanly closing upstream stream is relayed chunk for chunk: the caller
/// receives exactly as many items as upstream sent, each the data of the
/// corresponding chunk in the same order, and no error terminator is
/// injected.
pub proof fn lemma_clean_stream_relays_all(items: Seq<RelayItem>)
    requires
        forall|i: int| 0 <= i < items.len() ==> items[i] is Chunk,
    ensures
        spec_relay(items).len() == items.len(),
        forall|i: int|
            0 <= i < items.len() ==> spec_relay(items)[i] == RelayView::Data(
                chunk_data(#[trigger] items[i]),
            ),
    decreases items.len(),
{
    if items.len() > 0 {
        assert(items[0] is Chunk);
        let rest = items.drop_first();
        assert(forall|i: int| 0 <= i < rest.len() ==> #[trigger] rest[i] == items[i + 1]);
        lemma_clean_stream_relays_all(rest);
        assert forall|i: int| 0 <= i < items.len() implies spec_relay(items)[i] == RelayView::Data(
            chunk_data(#[trigger] items[i]),
        ) by {
            if i > 0 {
                assert(spec_relay(items)[i] == spec_relay(rest)[i - 1]);
                assert(rest[i - 1] == items[i]);
            }
        }
    }
}

/// A stream that fails after its first chunks is relayed up to the failure:
/// the caller receives those chunks in order and then exactly one terminal
/// error item carrying the upstream error text; nothing after the failure is
/// forwarded.
pub proof fn lemma_failed_stream_ends_with_terminal(items: Seq<RelayItem>, j: int, msg: String)
    requires
        0 <= j < items.len(),
        forall|i: int| 0 <= i < j ==> items[i] is Chunk,
        items[j] == RelayItem::Failure(msg),
    ensures
        spec_relay(items).len() == j + 1,
        forall|i: int|
            0 <= i < j ==> spec_relay(items)[i] == RelayView::Data(chunk_data(#[trigger] items[i])),
        spec_relay(items)[j] == RelayView::Terminal(spec_upstream_error_text(msg@)),
    decreases j,
{
    if j == 0 {
    } else {
        let rest = items.drop_first();
        assert(forall|i: int| 0 <= i < rest.len() ==> #[trigger] rest[i] == items[i + 1]);
        assert(rest[j - 1] == items[j]);
        lemma_failed_stream_ends_with_terminal(rest, j - 1, msg);
        assert forall|i: int| 0 <= i < j implies spec_relay(items)[i] == RelayView::Data(
            chunk_data(#[trigger] items[i]),
        ) by {
            if i > 0 {
                assert(spec_relay(items)[i] == spec_relay(rest)[i - 1]);
                assert(rest[i - 1] == items[i]);
            }
        }
    }
}

} // verus!
