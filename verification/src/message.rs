//! Transient on-screen messages: each carries a remaining lifetime in
//! frames, decremented every animation tick; spent messages are culled,
//! oldest first, without reordering what remains.

use vstd::prelude::*;
use crate::model::TEXT_BOUND;

verus! {

/// How many frames a fresh message stays on screen.
pub const MESSAGE_DURATION: i64 = 1800;

/// One blended line of text at the corner of the screen.
#[derive(Clone, Debug)]
pub struct Message {
    pub text: String,
    /// Remaining frames; the message is culled once this is no longer
    /// positive.
    pub life: i64,
}

pub open spec fn messages_wf(q: Seq<Message>) -> bool {
    forall|i: int| 0 <= i < q.len() ==> {
        &&& 0 <= (#[trigger] q[i]).life <= MESSAGE_DURATION
        &&& q[i].text@.len() <= TEXT_BOUND
    }
}

/// The queue with its spent messages removed, in order.
pub open spec fn cull_spec(q: Seq<Message>) -> Seq<Message>
    decreases q.len(),
{
    if q.len() == 0 {
        Seq::empty()
    } else {
        let rest = cull_spec(q.drop_first());
        if q[0].life > 0 {
            seq![q[0]] + rest
        } else {
            rest
        }
    }
}

/// Every message of a queue one frame older.
pub open spec fn age_all(q: Seq<Message>) -> Seq<Message> {
    q.map_values(|m: Message| Message { text: m.text, life: (m.life - 1) as i64 })
}

/// One frame's worth of aging: every surviving message one frame older.
pub open spec fn tick_spec(q: Seq<Message>) -> Seq<Message> {
    age_all(cull_spec(q))
}

/// Where entry `j` of the culled queue stood before the cull.
pub open spec fn kept_index(q: Seq<Message>, j: int) -> int
    decreases q.len(),
{
    if q.len() == 0 {
        0
    } else if q[0].life > 0 {
        if j == 0 {
            0
        } else {
            1 + kept_index(q.drop_first(), j - 1)
        }
    } else {
        1 + kept_index(q.drop_first(), j)
    }
}

/// Every culled entry keeps its text and its place: entry `j` of the
/// culled queue is the message that stood at `kept_index(q, j)`, that
/// message was still alive, and the indices are strictly increasing, so
/// culling never reorders what remains.
pub proof fn lemma_cull_origin(q: Seq<Message>, j: int)
    requires
        0 <= j < cull_spec(q).len(),
    ensures
        0 <= kept_index(q, j) < q.len(),
        cull_spec(q)[j] == q[kept_index(q, j)],
        q[kept_index(q, j)].life > 0,
        j < cull_spec(q).len() - 1 ==> kept_index(q, j) < kept_index(q, j + 1),
    decreases q.len(),
{
    if q.len() > 0 {
        let rest = q.drop_first();
        if q[0].life > 0 {
            if j > 0 {
                lemma_cull_origin(rest, j - 1);
            } else {
                if cull_spec(q).len() > 1 {
                    lemma_cull_origin(rest, 0);
                }
            }
            if 0 < j < cull_spec(q).len() - 1 {
                lemma_cull_origin(rest, j);
            }
        } else {
            lemma_cull_origin(rest, j);
            if j < cull_spec(q).len() - 1 {
                lemma_cull_origin(rest, j + 1);
            }
        }
    }
}

/// A spent message is gone: no entry of the culled queue originates at
/// its position.
pub proof fn lemma_cull_removes(q: Seq<Message>, i: int, j: int)
    requires
        0 <= i < q.len(),
        q[i].life <= 0,
        0 <= j < cull_spec(q).len(),
    ensures
        kept_index(q, j) != i,
    decreases q.len(),
{
    lemma_cull_origin(q, j);
}

/// A message's remaining lifetime strictly decreases every tick: the
/// survivor at position `j` carries the text of the message it came
/// from with exactly one frame less of life; spent messages are removed
/// and the rest keep their order.
pub proof fn lemma_message_lifetime(q: Seq<Message>, j: int)
    requires
        messages_wf(q),
        0 <= j < tick_spec(q).len(),
    ensures
        0 <= kept_index(q, j) < q.len(),
        tick_spec(q)[j].text == q[kept_index(q, j)].text,
        tick_spec(q)[j].life == q[kept_index(q, j)].life - 1,
        tick_spec(q)[j].life < q[kept_index(q, j)].life,
        q[kept_index(q, j)].life > 0,
        j < tick_spec(q).len() - 1 ==> kept_index(q, j) < kept_index(q, j + 1),
    decreases q.len(),
{
    lemma_cull_origin(q, j);
    if j < tick_spec(q).len() - 1 {
        lemma_cull_origin(q, j + 1);
    }
}

/// Age the message queue by one frame: cull every spent message, oldest
/// first, then count one frame off every survivor.
pub fn tick_messages(q: &mut Vec<Message>)
    requires
        messages_wf(old(q)@),
    ensures
        final(q)@ == tick_spec(old(q)@),
        messages_wf(final(q)@),
{
    let ghost q0 = q@;
    let mut out: Vec<Message> = Vec::new();
    let mut i: usize = 0;
    proof {
        assert(q0.skip(0) =~= q0);
        assert(Seq::<Message>::empty() + age_all(cull_spec(q0)) =~= age_all(cull_spec(q0)));
    }
    while i < q.len()
        invariant
            messages_wf(q0),
            q@ == q0,
            i <= q@.len(),
            messages_wf(out@),
            age_all(cull_spec(q0)) == out@ + age_all(cull_spec(q0.skip(i as int))),
        decreases q@.len() - i,
    {
        proof {
            assert(q0.skip(i as int).drop_first() =~= q0.skip(i + 1));
            assert(q0.skip(i as int)[0] == q0[i as int]);
        }
        let m = &q[i];
        if m.life > 0 {
            let ghost out_pre = out@;
            let aged = Message { text: m.text.clone(), life: m.life - 1 };
            out.push(aged);
            proof {
                assert(cull_spec(q0.skip(i as int)) =~= seq![q0[i as int]] + cull_spec(
                    q0.skip(i + 1),
                ));
                assert(age_all(seq![q0[i as int]] + cull_spec(q0.skip(i + 1))) =~= seq![aged]
                    + age_all(cull_spec(q0.skip(i + 1))));
                assert(out_pre + (seq![aged] + age_all(cull_spec(q0.skip(i + 1)))) =~= out@
                    + age_all(cull_spec(q0.skip(i + 1))));
            }
        }
        i += 1;
    }
    proof {
        assert(q0.skip(q0.len() as int) =~= Seq::<Message>::empty());
        assert(tick_spec(q0) =~= out@);
    }
    *q = out;
}

} // verus!
