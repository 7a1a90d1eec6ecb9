//! Laws of the per-tick behaviour, stated over the abstract transitions.

use vstd::prelude::*;

use crate::app_state::AppView;
use crate::app_state::ResizeEvent;
use crate::app_state::fresh_view;
use crate::app_state::send_view;
use crate::app_state::tick_view;
use crate::app_state::wf_view;
use crate::text_format::dims_text;

verus! {

/// Buffering a whole sequence of resize events, oldest first.
pub open spec fn send_all_view(v: AppView, es: Seq<ResizeEvent>) -> AppView
    decreases es.len(),
{
    if es.len() == 0 {
        v
    } else {
        send_all_view(send_view(v, es.first()), es.drop_first())
    }
}

/// Buffering events only appends them to the pending buffer, in order;
/// nothing else in the world changes.
pub proof fn lemma_send_all_view(v: AppView, es: Seq<ResizeEvent>)
    ensures
        send_all_view(v, es) == (AppView { pending: v.pending + es, ..v }),
    decreases es.len(),
{
    if es.len() == 0 {
        assert(send_all_view(v, es) =~~= (AppView { pending: v.pending + es, ..v }));
    } else {
        lemma_send_all_view(send_view(v, es.first()), es.drop_first());
        assert(v.pending.push(es.first()) + es.drop_first() =~= v.pending + es);
        assert(send_all_view(v, es) =~~= (AppView { pending: v.pending + es, ..v }));
    }
}

/// A tick keeps the world well-formed; once the schedules are registered,
/// every tick leaves exactly one camera and one text entity.
pub proof fn lemma_tick_preserves_wf(v: AppView)
    requires
        wf_view(v),
    ensures
        wf_view(tick_view(v)),
        v.systems_added ==> tick_view(v).texts.len() == 1,
{
}

/// The first tick of a freshly created application spawns exactly one text
/// entity, with empty content.
pub proof fn lemma_first_tick_spawns_empty_text()
    ensures
        tick_view(fresh_view(true)).texts.len() == 1,
        tick_view(fresh_view(true)).texts[0] == Seq::<char>::empty(),
{
}

/// Of any non-empty sequence of resize events delivered before a tick, only
/// the final event determines the label: after the tick the single text
/// entity shows that event's width and height, each with one decimal place,
/// joined by " x ".
pub proof fn lemma_last_resize_wins(v: AppView, es: Seq<ResizeEvent>)
    requires
        wf_view(v),
        v.systems_added,
        es.len() > 0,
    ensures
        ({
            let e = es.last();
            let w = tick_view(send_all_view(v, es));
            w.texts.len() == 1 && w.texts[0] == dims_text(
                e.width_tenths as nat,
                e.height_tenths as nat,
            )
        }),
{
    lemma_send_all_view(v, es);
    assert((v.pending + es).last() == es.last());
}

/// If no resize event arrives between two ticks, the second tick leaves the
/// text entities, and so the label's content, unchanged.
pub proof fn lemma_tick_idempotent(v: AppView)
    requires
        wf_view(v),
    ensures
        tick_view(tick_view(v)).texts == tick_view(v).texts,
{
}

} // verus!
