//! Following the window.

use vstd::prelude::*;

use crate::capture::{CaptureModel, Phase};
use crate::frame::FrameStep;
use crate::laws::{law_settings_are_kept, run, runs};
use crate::protocol::Event;
use crate::timing::elapsed;
use crate::window::{TrackerModel, WindowCheck, CHECK_INTERVAL};

verus! {

/// The system is asked about the window no more often than once per check interval: after a
/// check that asked, whatever the answer and wherever the window is found, the next check asks
/// exactly when two seconds have passed.
pub proof fn law_checks_are_spaced(
    tracker: TrackerModel,
    first: u128,
    found: Option<isize>,
    second: u128,
)
    requires
        tracker.check_interval == CHECK_INTERVAL,
        tracker.check(first) == WindowCheck::Probe,
    ensures
        ({
            let after = tracker.after_check(first).after_search(found);
            &&& after.check(second) == WindowCheck::Probe <==> second >= first + CHECK_INTERVAL
            &&& after.check(second) != WindowCheck::Probe ==> after.check(second)
                == WindowCheck::Settled(true)
        }),
{
}

/// A step asks about the window only when it is due, and notes when it did.
#[verifier::spinoff_prover]
proof fn lemma_step_last_check(s: CaptureModel, event: Event)
    requires
        s.accepts(event),
        !(s.phase is Retrack),
    ensures
        if s.next(event).phase is Probe {
            &&& event is Time
            &&& s.next(event).tracker.last_check == event->Time_0
            &&& elapsed(event->Time_0 as int, s.tracker.last_check as int)
                >= s.tracker.check_interval
        } else {
            s.next(event).tracker.last_check == s.tracker.last_check
        },
{
}

/// The time of the last check stays what it was until the next one.
#[verifier::spinoff_prover]
#[verifier::rlimit(40)]
proof fn lemma_last_check_is_kept(start: CaptureModel, events: Seq<Event>)
    requires
        runs(start, events),
        forall|i: int|
            0 <= i < events.len() ==> !((#[trigger] run(start, events.take(i))).phase is Retrack),
        forall|i: int|
            1 <= i <= events.len() ==> !((#[trigger] run(start, events.take(i))).phase is Probe),
    ensures
        run(start, events).tracker.last_check == start.tracker.last_check,
    decreases events.len(),
{
    if events.len() > 0 {
        let before = events.drop_last();
        assert forall|i: int| 0 <= i < before.len() implies !((#[trigger] run(
            start,
            before.take(i),
        )).phase is Retrack) by {
            assert(before.take(i) =~= events.take(i));
        }
        assert forall|i: int| 1 <= i <= before.len() implies !((#[trigger] run(
            start,
            before.take(i),
        )).phase is Probe) by {
            assert(before.take(i) =~= events.take(i));
        }
        lemma_last_check_is_kept(start, before);
        assert(events.take(events.len() as int) =~= events);
        assert(events.take(events.len() - 1) =~= before);
        assert(!(run(start, events.take(events.len() - 1)).phase is Retrack));
        assert(!(run(start, events.take(events.len() as int)).phase is Probe));
        lemma_step_last_check(run(start, before), events.last());
    }
}

/// In a run, too, two questions about one window are at least a check interval apart: until the
/// next question, with no new window picked, the clock moves on by two seconds or more from the
/// last one. Where nothing was asked yet, it moves on as far from when the window was picked, so
/// the first check is at least two seconds after that.
#[verifier::spinoff_prover]
#[verifier::rlimit(40)]
pub proof fn law_run_spaces_its_checks(start: CaptureModel, events: Seq<Event>)
    requires
        start.tracker.check_interval == CHECK_INTERVAL,
        runs(start, events),
        events.len() > 0,
        run(start, events).phase is Probe,
        forall|i: int|
            0 <= i < events.len() ==> !((#[trigger] run(start, events.take(i))).phase is Retrack),
        forall|i: int|
            1 <= i < events.len() ==> !((#[trigger] run(start, events.take(i))).phase is Probe),
    ensures
        run(start, events).tracker.last_check >= start.tracker.last_check + CHECK_INTERVAL,
        events.last() == Event::Time(run(start, events).tracker.last_check),
{
    let before = events.drop_last();
    assert forall|i: int| 0 <= i < before.len() implies !((#[trigger] run(
        start,
        before.take(i),
    )).phase is Retrack) by {
        assert(before.take(i) =~= events.take(i));
    }
    assert forall|i: int| 1 <= i <= before.len() implies !((#[trigger] run(
        start,
        before.take(i),
    )).phase is Probe) by {
        assert(before.take(i) =~= events.take(i));
    }
    lemma_last_check_is_kept(start, before);
    law_settings_are_kept(start, before);
    assert(events.take(events.len() - 1) =~= before);
    assert(!(run(start, events.take(events.len() - 1)).phase is Retrack));
    lemma_step_last_check(run(start, before), events.last());
}

/// A window that was just picked is not asked about for one check interval either.
pub proof fn law_fresh_window_is_trusted(
    hwnd: isize,
    process_name: Seq<char>,
    use_exact_match: bool,
    picked: u128,
    now: u128,
)
    ensures
        TrackerModel::fresh(hwnd, process_name, use_exact_match, picked).check(now)
            == WindowCheck::Settled(true) <==> now < picked + CHECK_INTERVAL,
{
}

/// A window that a run picks anew counts as checked when it was picked: the one that the second
/// search found is followed from the clock that was read then.
pub proof fn law_picked_window_counts_as_checked(s: CaptureModel, hwnd: isize, now: u128)
    requires
        s.phase == (Phase::Retrack { hwnd }),
    ensures
        s.next(Event::Time(now)).tracker == TrackerModel::fresh(
            hwnd,
            s.tracker.process_name,
            s.tracker.use_exact_match,
            now,
        ),
        s.next(Event::Time(now)).tracker.last_check == now,
{
}

/// That the window had the focus is remembered for as long as it is followed. It is first known
/// when the window is found in the foreground at the start of a frame.
#[verifier::spinoff_prover]
pub proof fn law_focus_is_remembered(s: CaptureModel, event: Event)
    requires
        s.accepts(event),
    ensures
        s.tracker.ever_focused && !(s.phase is Retrack) ==> s.next(event).tracker.ever_focused,
        !s.tracker.ever_focused && s.next(event).tracker.ever_focused ==> {
            &&& s.phase == Phase::Frame(FrameStep::QueryForeground)
            &&& event == Event::Foreground(s.tracker.hwnd)
        },
        s.phase == Phase::Frame(FrameStep::QueryForeground) && event == Event::Foreground(
            s.tracker.hwnd,
        ) ==> s.next(event).tracker.ever_focused,
{
}

/// The window that is followed changes only to one that a search has found.
#[verifier::spinoff_prover]
pub proof fn law_only_found_windows_are_followed(s: CaptureModel, event: Event)
    requires
        s.accepts(event),
        s.next(event).tracker.hwnd != s.tracker.hwnd,
    ensures
        ({
            let hwnd = s.next(event).tracker.hwnd;
            ||| s.phase is Search && event == Event::Found(Some(hwnd))
            ||| s.phase == (Phase::Retrack { hwnd })
        }),
{
}

} // verus!
