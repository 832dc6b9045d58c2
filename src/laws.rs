//! What holds of the scheduler over whole event sequences.

use vstd::prelude::*;

use crate::render_flag::ShouldRender;
use crate::scheduler::{is_quit_event, Action, AppView, Event};

verus! {

/// The state after handling `evs` in order from `s`; `hints[i]` is what the
/// domain state's advance returned for `evs[i]`, where it advanced.
pub open spec fn run_from(s: AppView, evs: Seq<Event>, hints: Seq<ShouldRender>) -> AppView
    decreases evs.len(),
{
    if evs.len() == 0 {
        s
    } else {
        let n = evs.len() - 1;
        run_from(s, evs.take(n), hints.take(n)).step(evs[n], hints[n]).0
    }
}

/// What the caller carries out for `evs[i]`, once the events before it are
/// handled.
pub open spec fn action_at(s: AppView, evs: Seq<Event>, hints: Seq<ShouldRender>, i: int) -> Action {
    run_from(s, evs.take(i), hints.take(i)).step(evs[i], hints[i]).1
}

/// How many of the events in `evs` draw the screen.
pub open spec fn draws(s: AppView, evs: Seq<Event>, hints: Seq<ShouldRender>) -> nat
    decreases evs.len(),
{
    if evs.len() == 0 {
        0
    } else {
        let n = evs.len() - 1;
        let before = run_from(s, evs.take(n), hints.take(n));
        draws(s, evs.take(n), hints.take(n)) + if before.step(evs[n], hints[n]).1.draw {
            1nat
        } else {
            0nat
        }
    }
}

/// How many of the events in `evs` advance the domain state.
pub open spec fn advances(s: AppView, evs: Seq<Event>, hints: Seq<ShouldRender>) -> nat
    decreases evs.len(),
{
    if evs.len() == 0 {
        0
    } else {
        let n = evs.len() - 1;
        let before = run_from(s, evs.take(n), hints.take(n));
        advances(s, evs.take(n), hints.take(n)) + if before.step(evs[n], hints[n]).1.advance {
            1nat
        } else {
            0nat
        }
    }
}

/// The configured rates never change.
pub proof fn lemma_run_keeps_rates(s: AppView, evs: Seq<Event>, hints: Seq<ShouldRender>)
    ensures
        run_from(s, evs, hints).fps == s.fps,
        run_from(s, evs, hints).tps == s.tps,
    decreases evs.len(),
{
    if evs.len() > 0 {
        let n = evs.len() - 1;
        lemma_run_keeps_rates(s, evs.take(n), hints.take(n));
    }
}

/// The termination flag is set after a sequence exactly when it was set
/// before or the sequence holds a quit, an error, or a quit key; once set it
/// stays set.
pub proof fn lemma_quit_iff_quit_event(s: AppView, evs: Seq<Event>, hints: Seq<ShouldRender>)
    ensures
        run_from(s, evs, hints).should_quit == (s.should_quit || exists|i: int|
            0 <= i < evs.len() && is_quit_event(#[trigger] evs[i])),
    decreases evs.len(),
{
    if evs.len() > 0 {
        let n = evs.len() - 1;
        let pre = evs.take(n);
        lemma_quit_iff_quit_event(s, pre, hints.take(n));
        if exists|i: int| 0 <= i < pre.len() && is_quit_event(#[trigger] pre[i]) {
            let i = choose|i: int| 0 <= i < pre.len() && is_quit_event(#[trigger] pre[i]);
            assert(evs[i] == pre[i]);
        }
        if exists|i: int| 0 <= i < evs.len() && is_quit_event(#[trigger] evs[i]) {
            let i = choose|i: int| 0 <= i < evs.len() && is_quit_event(#[trigger] evs[i]);
            if i < n {
                assert(pre[i] == evs[i]);
            }
        }
    }
}

/// Events other than `Render` never draw, and keep a pending `Render` flag.
pub proof fn lemma_non_render_events(s: AppView, evs: Seq<Event>, hints: Seq<ShouldRender>)
    requires
        forall|i: int| 0 <= i < evs.len() ==> evs[i] != Event::Render,
    ensures
        draws(s, evs, hints) == 0,
        s.should_render == ShouldRender::Render ==> run_from(s, evs, hints).should_render
            == ShouldRender::Render,
    decreases evs.len(),
{
    if evs.len() > 0 {
        let n = evs.len() - 1;
        let pre = evs.take(n);
        assert forall|i: int| 0 <= i < pre.len() implies pre[i] != Event::Render by {
            assert(pre[i] == evs[i]);
        }
        lemma_non_render_events(s, pre, hints.take(n));
    }
}

/// Any number of events other than `Render` followed by one `Render` draw at
/// most once, and exactly once where a redraw was already pending.
pub proof fn lemma_single_draw(s: AppView, evs: Seq<Event>, hints: Seq<ShouldRender>)
    requires
        evs.len() >= 1,
        evs.last() == Event::Render,
        forall|i: int| 0 <= i < evs.len() - 1 ==> evs[i] != Event::Render,
    ensures
        draws(s, evs, hints) <= 1,
        s.should_render == ShouldRender::Render ==> draws(s, evs, hints) == 1,
{
    let n = evs.len() - 1;
    let pre = evs.take(n);
    assert forall|i: int| 0 <= i < pre.len() implies pre[i] != Event::Render by {
        assert(pre[i] == evs[i]);
    }
    lemma_non_render_events(s, pre, hints.take(n));
}

/// With equal rates a `Render` event advances the state exactly once (the
/// frame counter moves by one step) and draws at most once.
pub proof fn lemma_collapsed_render(s: AppView, hint: ShouldRender)
    requires
        s.fps == s.tps,
    ensures
        s.step(Event::Render, hint).1.advance,
        s.step(Event::Render, hint).0.frame_in_second == s.after_tick(hint).frame_in_second,
        s.frame_in_second < usize::MAX ==> s.step(Event::Render, hint).0.frame_in_second
            == s.frame_in_second + 1,
{
}

/// With equal rates, a run of `Render` events advances the state once per
/// event and draws at most once per event.
pub proof fn lemma_collapsed_renders(s: AppView, evs: Seq<Event>, hints: Seq<ShouldRender>)
    requires
        s.fps == s.tps,
        forall|i: int| 0 <= i < evs.len() ==> evs[i] == Event::Render,
    ensures
        advances(s, evs, hints) == evs.len(),
        draws(s, evs, hints) <= evs.len(),
    decreases evs.len(),
{
    if evs.len() > 0 {
        let n = evs.len() - 1;
        let pre = evs.take(n);
        assert forall|i: int| 0 <= i < pre.len() implies pre[i] == Event::Render by {
            assert(pre[i] == evs[i]);
        }
        lemma_collapsed_renders(s, pre, hints.take(n));
        lemma_run_keeps_rates(s, pre, hints.take(n));
    }
}

/// A `Timer` event folds the frame counter into the telemetry and resets it.
pub proof fn lemma_timer_folds(s: AppView, hint: ShouldRender)
    ensures
        s.step(Event::Timer, hint).0.frame_in_second == 0,
        s.step(Event::Timer, hint).0.runtime_info.fps == s.frame_in_second,
        s.step(Event::Timer, hint).0.should_render == ShouldRender::Render,
{
}

} // verus!
