//! The guarantees of the dispatch algorithm, stated over whole runs: ordered
//! events reach the handler at most once each and in strictly increasing id
//! order, fresh in-order events all reach it, `askSpecial` is never
//! deduplicated, identity assignment always captures the id, unrecognized
//! ordered events advance the watermark silently, and closing is idempotent.

use vstd::prelude::*;
use crate::client::{
    spec_step, spec_close, step_delivered_id, strictly_increasing, lemma_step_bounds, ActionView,
    ClientView, StepRes,
};
use crate::msg::{FieldView, MsgView};

verus! {

/// The conversation state after dispatching a sequence of decoded messages,
/// one by one in arrival order.
pub open spec fn run_steps(c: ClientView, msgs: Seq<MsgView>) -> ClientView
    decreases msgs.len(),
{
    if msgs.len() == 0 {
        c
    } else {
        run_steps(spec_step(c, msgs[0]).0, msgs.skip(1))
    }
}

/// The ordered-event ids a sequence of decoded messages delivers to the
/// handler, in delivery order.
pub open spec fn delivered_ids_of(c: ClientView, msgs: Seq<MsgView>) -> Seq<int>
    decreases msgs.len(),
{
    if msgs.len() == 0 {
        Seq::empty()
    } else {
        (match step_delivered_id(c, msgs[0]) {
            Some(i) => seq![i],
            None => Seq::<int>::empty(),
        }) + delivered_ids_of(spec_step(c, msgs[0]).0, msgs.skip(1))
    }
}

/// At-most-once, in-order delivery: whatever messages arrive and in whatever
/// order, the ordered-event ids the handler observes are strictly increasing
/// — so duplicate-free, with every re-sent or out-of-date id dropped — and
/// all above the watermark the client started from.
pub proof fn lemma_delivery_strictly_increasing(c: ClientView, msgs: Seq<MsgView>)
    ensures
        strictly_increasing(delivered_ids_of(c, msgs)),
        forall|k: int|
            0 <= k < delivered_ids_of(c, msgs).len() ==> #[trigger] delivered_ids_of(c, msgs)[k]
                > c.last_message_id,
    decreases msgs.len(),
{
    if msgs.len() > 0 {
        let m0 = msgs[0];
        let c2 = spec_step(c, m0).0;
        let head: Seq<int> = match step_delivered_id(c, m0) {
            Some(i) => seq![i],
            None => Seq::<int>::empty(),
        };
        let tail = delivered_ids_of(c2, msgs.skip(1));
        let all = delivered_ids_of(c, msgs);
        lemma_step_bounds(c, m0);
        lemma_delivery_strictly_increasing(c2, msgs.skip(1));
        assert(all == head + tail);
        assert forall|k: int| 0 <= k < all.len() implies #[trigger] all[k] > c.last_message_id by {
            if k < head.len() {
                assert(all[k] == head[0]);
            } else {
                assert(all[k] == tail[k - head.len()]);
            }
        }
        assert forall|i: int, j: int| 0 <= i < j < all.len() implies all[i] < all[j] by {
            if head.len() <= i {
                assert(all[i] == tail[i - head.len()]);
                assert(all[j] == tail[j - head.len()]);
            } else {
                assert(all[i] == head[0]);
                assert(all[j] == tail[j - head.len()]);
                assert(all[i] == c2.last_message_id);
                assert(all[j] > c2.last_message_id);
            }
        }
    }
}

/// The watermark only ever rises: across a whole run it never goes below
/// where it started, the closed mark is never touched by dispatch, and every
/// id delivered along the way lies at or below the final watermark.
pub proof fn lemma_watermark_monotone(c: ClientView, msgs: Seq<MsgView>)
    ensures
        c.last_message_id <= run_steps(c, msgs).last_message_id,
        run_steps(c, msgs).closed == c.closed,
        forall|k: int|
            0 <= k < delivered_ids_of(c, msgs).len() ==> #[trigger] delivered_ids_of(c, msgs)[k]
                <= run_steps(c, msgs).last_message_id,
    decreases msgs.len(),
{
    if msgs.len() > 0 {
        let m0 = msgs[0];
        let c2 = spec_step(c, m0).0;
        let head: Seq<int> = match step_delivered_id(c, m0) {
            Some(i) => seq![i],
            None => Seq::<int>::empty(),
        };
        let tail = delivered_ids_of(c2, msgs.skip(1));
        let all = delivered_ids_of(c, msgs);
        lemma_step_bounds(c, m0);
        lemma_watermark_monotone(c2, msgs.skip(1));
        assert(all == head + tail);
        assert forall|k: int| 0 <= k < all.len() implies #[trigger] all[k] <= run_steps(
            c,
            msgs,
        ).last_message_id by {
            if k < head.len() {
                assert(all[k] == head[0]);
            } else {
                assert(all[k] == tail[k - head.len()]);
            }
        }
    }
}

/// A decoded message that is a well-formed ordered `text` event.
pub open spec fn ordered_text_msg(m: MsgView) -> bool {
    &&& m.type_field == FieldView::Str("text"@)
    &&& m.id_field is Int
    &&& m.text_field is Str
}

/// The id an ordered event carries.
pub open spec fn msg_id(m: MsgView) -> int {
    match m.id_field {
        FieldView::Int(i) => i,
        _ => 0,
    }
}

/// Nothing fresh is lost: when well-formed ordered events arrive with
/// strictly increasing ids, all above the client's watermark, every one of
/// them is delivered — the handler observes exactly that id sequence.
pub proof fn lemma_fresh_in_order_all_delivered(c: ClientView, msgs: Seq<MsgView>)
    requires
        forall|k: int| 0 <= k < msgs.len() ==> ordered_text_msg(#[trigger] msgs[k]),
        forall|k: int| 0 <= k < msgs.len() ==> msg_id(#[trigger] msgs[k]) > c.last_message_id,
        forall|i: int, j: int|
            0 <= i < j < msgs.len() ==> msg_id(msgs[i]) < msg_id(msgs[j]),
    ensures
        delivered_ids_of(c, msgs) == msgs.map_values(|m: MsgView| msg_id(m)),
    decreases msgs.len(),
{
    reveal_strlit("text");
    reveal_strlit("id");
    reveal_strlit("askSpecial");
    reveal_strlit("command");
    if msgs.len() == 0 {
        assert(delivered_ids_of(c, msgs) =~= msgs.map_values(|m: MsgView| msg_id(m)));
    } else {
        let m0 = msgs[0];
        let c2 = spec_step(c, m0).0;
        assert(ordered_text_msg(m0) && msg_id(m0) > c.last_message_id);
        assert("text"@.len() == 4 && "id"@.len() == 2 && "askSpecial"@.len() == 10);
        assert("text"@ != "id"@ && "text"@ != "askSpecial"@);
        assert(step_delivered_id(c, m0) == Some(msg_id(m0)));
        assert(c2.last_message_id == msg_id(m0));
        assert forall|k: int| 0 <= k < msgs.skip(1).len() implies ordered_text_msg(
            #[trigger] msgs.skip(1)[k],
        ) && msg_id(msgs.skip(1)[k]) > c2.last_message_id by {
            assert(msgs.skip(1)[k] == msgs[k + 1]);
            assert(msg_id(msgs[0]) < msg_id(msgs[k + 1]));
        }
        assert forall|i: int, j: int| 0 <= i < j < msgs.skip(1).len() implies msg_id(
            msgs.skip(1)[i],
        ) < msg_id(msgs.skip(1)[j]) by {
            assert(msgs.skip(1)[i] == msgs[i + 1]);
            assert(msgs.skip(1)[j] == msgs[j + 1]);
        }
        lemma_fresh_in_order_all_delivered(c2, msgs.skip(1));
        assert(delivered_ids_of(c, msgs) =~= msgs.map_values(|m: MsgView| msg_id(m)));
    }
}

/// `askSpecial` is never deduplicated: whatever the conversation state —
/// however often the same expectation arrived before — a well-formed
/// `askSpecial` event leaves the state alone and always reaches the handler,
/// clearing the expectation on null and setting it on a string.
pub proof fn lemma_ask_special_never_deduplicated(c: ClientView, m: MsgView)
    requires
        m.type_field == FieldView::Str("askSpecial"@),
        m.what_field is Null || m.what_field is Str,
    ensures
        spec_step(c, m).0 == c,
        spec_step(c, m).1 matches StepRes::Acted(a) && (match m.what_field {
            FieldView::Null => a == ActionView::ClearExpected,
            FieldView::Str(s) => a == ActionView::SetExpected(s),
            _ => false,
        }),
{
    reveal_strlit("askSpecial");
    reveal_strlit("id");
    assert("askSpecial"@.len() == 10 && "id"@.len() == 2);
    assert("askSpecial"@ != "id"@);
}

/// Identity assignment always captures the id: a well-formed `id` event sets
/// the conversation id to the one it carries, whatever — if anything — was
/// captured before, and nothing reaches the handler.
pub proof fn lemma_identity_assignment_overwrites(c: ClientView, m: MsgView, s: Seq<char>)
    requires
        m.type_field == FieldView::Str("id"@),
        m.id_field == FieldView::Str(s),
    ensures
        spec_step(c, m).0 == (ClientView { conversation_id: Some(s), ..c }),
        spec_step(c, m).1 is Silent,
{
}

/// Forward compatibility: an ordered event of an unrecognized type with a
/// fresh id advances the watermark and nothing else; the handler is not
/// invoked.
pub proof fn lemma_unrecognized_ordered_event(c: ClientView, m: MsgView, i: int)
    requires
        m.type_field matches FieldView::Str(t) && t != "id"@ && t != "askSpecial"@ && t
            != "text"@ && t != "command"@,
        m.id_field == FieldView::Int(i),
        i > c.last_message_id,
    ensures
        spec_step(c, m).0 == (ClientView { last_message_id: i, ..c }),
        spec_step(c, m).1 is Silent,
        step_delivered_id(c, m) is None,
{
}

/// Closing is idempotent: closing an already closed client changes nothing.
pub proof fn lemma_close_idempotent(c: ClientView)
    ensures
        spec_close(spec_close(c)) == spec_close(c),
{
}

} // verus!
