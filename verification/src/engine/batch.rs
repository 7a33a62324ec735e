//! A batch of parsed input events made ready for the engine: runs of
//! edits fused into one, and only the last resize kept.
use vstd::prelude::*;

use crate::enums::{
    event_view, events_view, lemma_events_view_len, lemma_events_view_push, EditCommand, EventView,
    ReedlineEvent,
};

verus! {

/// The events emitted so far, the edit commands waiting to be fused, and
/// the last resize seen.
pub type BatchState = (Seq<EventView>, Seq<EditCommand>, Option<(u16, u16)>);

/// One parsed event taken into the batch: edits wait to be fused, a
/// resize replaces the one before, and any other event first emits the
/// waiting edits as one event, then itself.
pub open spec fn batch_step(st: BatchState, e: EventView) -> BatchState {
    match e {
        EventView::Edit(cmds) => (st.0, st.1 + cmds, st.2),
        EventView::Resize(x, y) => (st.0, st.1, Some((x, y))),
        other => (
            (if st.1.len() > 0 {
                st.0.push(EventView::Edit(st.1))
            } else {
                st.0
            }).push(other),
            Seq::empty(),
            st.2,
        ),
    }
}

/// The batch after taking `es` in order.
pub open spec fn batch_fold(es: Seq<EventView>) -> BatchState
    decreases es.len(),
{
    if es.len() == 0 {
        (Seq::empty(), Seq::empty(), None)
    } else {
        batch_step(batch_fold(es.drop_last()), es.last())
    }
}

/// The events the engine handles for the parsed events `es`: the batch,
/// then the edits still waiting, then the last resize, then a submit
/// when the line is to be accepted at once.
pub open spec fn coalesced(es: Seq<EventView>, accept: bool) -> Seq<EventView> {
    let st = batch_fold(es);
    let a = if st.1.len() > 0 {
        st.0.push(EventView::Edit(st.1))
    } else {
        st.0
    };
    let b = match st.2 {
        Some((x, y)) => a.push(EventView::Resize(x, y)),
        None => a,
    };
    if accept {
        b.push(EventView::Submit)
    } else {
        b
    }
}

/// Fuses the edits of a parsed batch and keeps its last resize, as the
/// engine does before handling the events.
pub fn coalesce_events(parsed: &Vec<ReedlineEvent>, immediately_accept: bool) -> (r: Vec<ReedlineEvent>)
    ensures
        events_view(r@) == coalesced(events_view(parsed@), immediately_accept),
{
    let ghost es = events_view(parsed@);
    proof {
        lemma_events_view_len(parsed@);
    }
    let mut out: Vec<ReedlineEvent> = Vec::new();
    let mut edits: Vec<EditCommand> = Vec::new();
    let mut resize: Option<(u16, u16)> = None;
    let mut i: usize = 0;
    while i < parsed.len()
        invariant
            i <= parsed@.len(),
            es == events_view(parsed@),
            es.len() == parsed@.len(),
            forall|j: int| 0 <= j < parsed@.len() ==> #[trigger] es[j] == event_view(parsed@[j]),
            (events_view(out@), edits@, resize) == batch_fold(es.take(i as int)),
        decreases parsed.len() - i,
    {
        proof {
            assert(es.take(i + 1).drop_last() == es.take(i as int));
            assert(es.take(i + 1).last() == es[i as int]);
        }
        match &parsed[i] {
            ReedlineEvent::Edit(cmds) => {
                let mut k: usize = 0;
                let ghost before = edits@;
                while k < cmds.len()
                    invariant
                        k <= cmds@.len(),
                        edits@ == before + cmds@.take(k as int),
                    decreases cmds.len() - k,
                {
                    edits.push(cmds[k].duplicate());
                    proof {
                        assert(cmds@.take(k + 1) == cmds@.take(k as int).push(cmds@[k as int]));
                    }
                    k = k + 1;
                }
                proof {
                    assert(cmds@.take(cmds@.len() as int) == cmds@);
                }
            },
            ReedlineEvent::Resize(x, y) => {
                resize = Some((*x, *y));
            },
            other => {
                if edits.len() > 0 {
                    let fused = ReedlineEvent::Edit(edits);
                    let ghost before = out@;
                    out.push(fused);
                    proof {
                        lemma_events_view_push(before, fused);
                    }
                    edits = Vec::new();
                }
                let e = other.duplicate();
                let ghost before = out@;
                out.push(e);
                proof {
                    lemma_events_view_push(before, e);
                    assert(edits@ =~= Seq::<EditCommand>::empty());
                }
            },
        }
        i = i + 1;
    }
    proof {
        assert(es.take(parsed@.len() as int) == es);
    }
    if edits.len() > 0 {
        let fused = ReedlineEvent::Edit(edits);
        let ghost before = out@;
        out.push(fused);
        proof {
            lemma_events_view_push(before, fused);
        }
    }
    if let Some((x, y)) = resize {
        let ghost before = out@;
        out.push(ReedlineEvent::Resize(x, y));
        proof {
            lemma_events_view_push(before, ReedlineEvent::Resize(x, y));
        }
    }
    if immediately_accept {
        let ghost before = out@;
        out.push(ReedlineEvent::Submit);
        proof {
            lemma_events_view_push(before, ReedlineEvent::Submit);
        }
    }
    out
}

/// The edit commands of `s`, in order.
pub open spec fn edit_commands(s: Seq<EventView>) -> Seq<EditCommand>
    decreases s.len(),
{
    if s.len() == 0 {
        Seq::empty()
    } else {
        edit_commands(s.drop_last()) + match s.last() {
            EventView::Edit(c) => c,
            _ => Seq::empty(),
        }
    }
}

/// The events of `s` that are neither edits nor resizes, in order.
pub open spec fn other_events(s: Seq<EventView>) -> Seq<EventView>
    decreases s.len(),
{
    if s.len() == 0 {
        Seq::empty()
    } else {
        other_events(s.drop_last()) + match s.last() {
            EventView::Edit(_) => Seq::empty(),
            EventView::Resize(_, _) => Seq::empty(),
            e => seq![e],
        }
    }
}

/// The sizes of the resizes of `s`, in order.
pub open spec fn resizes(s: Seq<EventView>) -> Seq<(u16, u16)>
    decreases s.len(),
{
    if s.len() == 0 {
        Seq::empty()
    } else {
        resizes(s.drop_last()) + match s.last() {
            EventView::Resize(x, y) => seq![(x, y)],
            _ => Seq::empty(),
        }
    }
}

/// The size of the last resize of `s`.
pub open spec fn last_resize(s: Seq<EventView>) -> Option<(u16, u16)>
    decreases s.len(),
{
    if s.len() == 0 {
        None
    } else {
        match s.last() {
            EventView::Resize(x, y) => Some((x, y)),
            _ => last_resize(s.drop_last()),
        }
    }
}

/// No edit event of `s` is empty, and no two edit events are adjacent.
pub open spec fn edits_fused(s: Seq<EventView>) -> bool {
    forall|i: int|
        0 <= i < s.len() ==> (#[trigger] s[i] matches EventView::Edit(c) ==> c.len() > 0) && (i + 1
            < s.len() ==> !(s[i] is Edit && s[i + 1] is Edit))
}

proof fn lemma_push_parts(s: Seq<EventView>, e: EventView)
    ensures
        edit_commands(s.push(e)) == edit_commands(s) + match e {
            EventView::Edit(c) => c,
            _ => Seq::empty(),
        },
        other_events(s.push(e)) == other_events(s) + match e {
            EventView::Edit(_) => Seq::empty(),
            EventView::Resize(_, _) => Seq::empty(),
            e => seq![e],
        },
        resizes(s.push(e)) == resizes(s) + match e {
            EventView::Resize(x, y) => seq![(x, y)],
            _ => Seq::empty(),
        },
{
    assert(s.push(e).drop_last() == s);
}

/// What the batch holds after `es`, in the terms of the law below.
proof fn lemma_batch_fold(es: Seq<EventView>)
    ensures
        ({
            let st = batch_fold(es);
            &&& edit_commands(st.0) + st.1 == edit_commands(es)
            &&& other_events(st.0) == other_events(es)
            &&& resizes(st.0) == Seq::<(u16, u16)>::empty()
            &&& st.2 == last_resize(es)
            &&& edits_fused(st.0)
            &&& st.0.len() > 0 ==> !(st.0.last() is Edit)
        }),
    decreases es.len(),
{
    if es.len() == 0 {
        assert(edit_commands(Seq::<EventView>::empty()) + Seq::<EditCommand>::empty() =~= Seq::<
            EditCommand,
        >::empty());
    } else {
        let prev = es.drop_last();
        let e = es.last();
        lemma_batch_fold(prev);
        let st = batch_fold(prev);
        lemma_push_parts(prev, e);
        match e {
            EventView::Edit(c) => {
                assert(edit_commands(st.0) + (st.1 + c) =~= (edit_commands(st.0) + st.1) + c);
            },
            EventView::Resize(x, y) => {
                assert(other_events(prev) + Seq::<EventView>::empty() =~= other_events(prev));
                assert(edit_commands(prev) + Seq::<EditCommand>::empty() =~= edit_commands(prev));
            },
            other => {
                let a = if st.1.len() > 0 {
                    st.0.push(EventView::Edit(st.1))
                } else {
                    st.0
                };
                if st.1.len() > 0 {
                    lemma_push_parts(st.0, EventView::Edit(st.1));
                    assert(other_events(st.0) + Seq::<EventView>::empty() =~= other_events(st.0));
                    assert(resizes(st.0) + Seq::<(u16, u16)>::empty() =~= resizes(st.0));
                } else {
                    assert(edit_commands(st.0) + st.1 =~= edit_commands(st.0));
                }
                lemma_push_parts(a, other);
                assert(edit_commands(a) + Seq::<EditCommand>::empty() =~= edit_commands(a));
                assert(resizes(a) + Seq::<(u16, u16)>::empty() =~= resizes(a));
                assert(edit_commands(a.push(other)) + Seq::<EditCommand>::empty() =~= edit_commands(
                    a.push(other),
                ));
                assert(edit_commands(prev) + Seq::<EditCommand>::empty() =~= edit_commands(prev));
                let out = a.push(other);
                assert forall|i: int| 0 <= i < out.len() implies (#[trigger] out[i] matches EventView::Edit(
                    c,
                ) ==> c.len() > 0) && (i + 1 < out.len() ==> !(out[i] is Edit && out[i + 1] is Edit)) by {
                    if i < st.0.len() {
                        assert(out[i] == st.0[i]);
                        if i + 1 < st.0.len() {
                            assert(out[i + 1] == st.0[i + 1]);
                        }
                    }
                }
            },
        }
    }
}

/// Coalescing loses nothing and reorders nothing: the edit commands come
/// out in the order they were typed, fused into edit events that are
/// neither empty nor adjacent; the other events come out in order,
/// followed by the submit when asked; of the resizes only the last one
/// is kept.
pub proof fn coalescing_keeps_order(es: Seq<EventView>, accept: bool)
    ensures
        ({
            let out = coalesced(es, accept);
            &&& edit_commands(out) == edit_commands(es)
            &&& other_events(out) == other_events(es) + (if accept {
                seq![EventView::Submit]
            } else {
                Seq::empty()
            })
            &&& resizes(out) == match last_resize(es) {
                Some(r) => seq![r],
                None => Seq::<(u16, u16)>::empty(),
            }
            &&& edits_fused(out)
        }),
{
    lemma_batch_fold(es);
    let st = batch_fold(es);
    let a = if st.1.len() > 0 {
        st.0.push(EventView::Edit(st.1))
    } else {
        st.0
    };
    let b = match st.2 {
        Some((x, y)) => a.push(EventView::Resize(x, y)),
        None => a,
    };
    let out = coalesced(es, accept);
    if st.1.len() > 0 {
        lemma_push_parts(st.0, EventView::Edit(st.1));
        assert(other_events(st.0) + Seq::<EventView>::empty() =~= other_events(st.0));
        assert(resizes(st.0) + Seq::<(u16, u16)>::empty() =~= resizes(st.0));
    } else {
        assert(edit_commands(st.0) + st.1 =~= edit_commands(st.0));
    }
    match st.2 {
        Some((x, y)) => {
            lemma_push_parts(a, EventView::Resize(x, y));
            assert(edit_commands(a) + Seq::<EditCommand>::empty() =~= edit_commands(a));
            assert(other_events(a) + Seq::<EventView>::empty() =~= other_events(a));
            assert(resizes(a) + seq![(x, y)] =~= seq![(x, y)]);
        },
        None => {},
    }
    if accept {
        lemma_push_parts(b, EventView::Submit);
        assert(edit_commands(b) + Seq::<EditCommand>::empty() =~= edit_commands(b));
        assert(resizes(b) + Seq::<(u16, u16)>::empty() =~= resizes(b));
    } else {
        assert(other_events(b) + Seq::<EventView>::empty() =~= other_events(b));
    }
    assert forall|i: int| 0 <= i < out.len() implies (#[trigger] out[i] matches EventView::Edit(c)
        ==> c.len() > 0) && (i + 1 < out.len() ==> !(out[i] is Edit && out[i + 1] is Edit)) by {
        if i < st.0.len() {
            assert(out[i] == st.0[i]);
            if i + 1 < st.0.len() {
                assert(out[i + 1] == st.0[i + 1]);
            } else if i + 1 < out.len() {
                assert(st.0.last() == st.0[i]);
            }
        }
    }
}

} // verus!
