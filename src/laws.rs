use vstd::prelude::*;
use crate::output::{
    command_of, fetch_for, fetch_of, max_scroll_view, next_view, redraw_of, scrolled, with_history,
    with_live, wf_view, ConsoleView, Event, Line, Redraw,
};

verus! {

/// Chronological order: if the history loader hands out entries newest first,
/// the live feed oldest first, and every history entry is older than every
/// live one, then the buffer read front to back never goes back in time.
/// `hist_time[i]` and `live_time[i]` are the times of the i-th entry received
/// from each source.
pub proof fn lemma_chronological(v: ConsoleView, hist_time: Seq<int>, live_time: Seq<int>)
    requires
        wf_view(v),
        hist_time.len() == v.hist.len(),
        live_time.len() == v.live.len(),
        forall|i: int, j: int| 0 <= i < j < hist_time.len() ==> hist_time[i] >= hist_time[j],
        forall|i: int, j: int| 0 <= i < j < live_time.len() ==> live_time[i] <= live_time[j],
        forall|i: int, j: int|
            0 <= i < hist_time.len() && 0 <= j < live_time.len() ==> hist_time[i] <= live_time[j],
    ensures
        ({
            let t = hist_time.reverse() + live_time;
            &&& t.len() == v.buffer.len()
            &&& forall|i: int, j: int| 0 <= i < j < t.len() ==> t[i] <= t[j]
        }),
{
    let t = hist_time.reverse() + live_time;
    let n = hist_time.len();
    assert forall|i: int, j: int| 0 <= i < j < t.len() implies t[i] <= t[j] by {
        if j < n {
            assert(t[i] == hist_time[n - 1 - i]);
            assert(t[j] == hist_time[n - 1 - j]);
        } else if i < n {
            assert(t[i] == hist_time[n - 1 - i]);
            assert(t[j] == live_time[j - n]);
        } else {
            assert(t[i] == live_time[i - n]);
            assert(t[j] == live_time[j - n]);
        }
    }
}

/// Scroll bound: every terminal event, live entry and history entry keeps
/// `scroll` within `0 ..= max_scroll`, and the buffer a replay of what arrived.
pub proof fn lemma_scroll_bound(v: ConsoleView, ev: Event, line: Line)
    requires
        wf_view(v),
    ensures
        wf_view(next_view(v, ev)),
        next_view(v, ev).scroll <= max_scroll_view(next_view(v, ev)),
        wf_view(with_live(v, line)),
        wf_view(with_history(v, line)),
{
    let w = with_live(v, line);
    assert(w.hist.reverse() + w.live =~= w.buffer);
    let u = with_history(v, line);
    assert(u.hist.reverse() =~= seq![line] + v.hist.reverse());
    assert(u.hist.reverse() + u.live =~= u.buffer);
}

/// Exhaustion does not block: once the history loader has closed, scrolling
/// back past the buffer asks for nothing, leaves the buffer alone and stops at 0.
pub proof fn lemma_exhausted_scroll(v: ConsoleView, delta: int)
    requires
        wf_view(v),
        v.history_done,
        delta < 0,
        -delta > v.scroll,
    ensures
        fetch_for(v, delta) == 0,
        scrolled(v, delta).scroll == 0,
        scrolled(v, delta).buffer == v.buffer,
{
}

/// Pin to tail: a live entry moves a view at the tail to the new tail, and
/// leaves a view above the tail where it was.
pub proof fn lemma_pin_to_tail(v: ConsoleView, line: Line)
    requires
        wf_view(v),
    ensures
        v.scroll == max_scroll_view(v) ==> with_live(v, line).scroll == max_scroll_view(with_live(v, line)),
        v.scroll < max_scroll_view(v) ==> with_live(v, line).scroll == v.scroll,
{
}

/// A scroll by zero changes nothing, fetches nothing and repaints nothing.
pub proof fn lemma_noop_scroll(v: ConsoleView)
    requires
        wf_view(v),
    ensures
        scrolled(v, 0) == v,
        fetch_for(v, 0) == 0,
        v.vertical_move == 0 ==> next_view(v, Event::Up) == v && next_view(v, Event::Down) == v,
        v.vertical_move == 0 ==> fetch_of(v, Event::Up) == 0 && fetch_of(v, Event::Down) == 0,
        v.vertical_move == 0 ==> redraw_of(v, Event::Up) == Redraw::Nothing && redraw_of(v, Event::Down)
            == Redraw::Nothing,
{
}

/// The state after typing each character of `cs` in turn.
pub open spec fn typed(v: ConsoleView, cs: Seq<char>) -> ConsoleView
    decreases cs.len(),
{
    if cs.len() == 0 {
        v
    } else {
        next_view(typed(v, cs.drop_last()), Event::Char(cs.last()))
    }
}

proof fn lemma_typed_input(v: ConsoleView, cs: Seq<char>)
    ensures
        typed(v, cs).input == v.input + cs,
    decreases cs.len(),
{
    if cs.len() > 0 {
        lemma_typed_input(v, cs.drop_last());
        assert(v.input + cs.drop_last() + seq![cs.last()] =~= v.input + cs);
    } else {
        assert(v.input + cs =~= v.input);
    }
}

/// Command round trip: typing `cs` on an empty input line and submitting
/// hands out exactly `cs` and leaves the input line empty.
pub proof fn lemma_command_round_trip(v: ConsoleView, cs: Seq<char>)
    requires
        v.input.len() == 0,
    ensures
        command_of(typed(v, cs), Event::Enter) == Some(cs),
        next_view(typed(v, cs), Event::Enter).input.len() == 0,
        redraw_of(typed(v, cs), Event::Enter) == Redraw::Input,
{
    lemma_typed_input(v, cs);
    assert(v.input + cs =~= cs);
}

} // verus!
