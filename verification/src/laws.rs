//! What holds of whole runs.

use vstd::prelude::*;

use crate::capture::CaptureModel;
use crate::protocol::Event;
use crate::window::CHECK_INTERVAL;

pub mod cursor;
pub mod recovery;
pub mod frames;
pub mod schedule;
pub mod setup;
pub mod start;
pub mod steps;
pub mod window;

verus! {

/// A run after a sequence of events.
pub open spec fn run(start: CaptureModel, events: Seq<Event>) -> CaptureModel
    decreases events.len(),
{
    if events.len() == 0 {
        start
    } else {
        run(start, events.drop_last()).next(events.last())
    }
}

/// Whether each of a sequence of events is accepted in its turn.
pub open spec fn runs(start: CaptureModel, events: Seq<Event>) -> bool
    decreases events.len(),
{
    events.len() > 0 ==> {
        &&& runs(start, events.drop_last())
        &&& run(start, events.drop_last()).accepts(events.last())
    }
}

/// Whether an event says that an action succeeded.
pub open spec fn succeeded(event: Event) -> bool {
    event matches Event::Completed(Ok(_))
}

/// How often a run took a step of some kind.
pub open spec fn count(
    start: CaptureModel,
    events: Seq<Event>,
    kind: spec_fn(CaptureModel, Event) -> bool,
) -> int
    decreases events.len(),
{
    if events.len() == 0 {
        0
    } else {
        count(start, events.drop_last(), kind) + if kind(
            run(start, events.drop_last()),
            events.last(),
        ) {
            1int
        } else {
            0
        }
    }
}

/// Every state of a run is well-formed: frames are captured only while the duplication interface
/// is usable, and a duplicate is sent only while the run is a whole frame behind.
#[verifier::spinoff_prover]
#[verifier::rlimit(40)]
pub proof fn law_always_well_formed(start: CaptureModel, events: Seq<Event>)
    requires
        start.wf(),
        runs(start, events),
    ensures
        run(start, events).wf(),
    decreases events.len(),
{
    if events.len() > 0 {
        law_always_well_formed(start, events.drop_last());
    }
}

/// Whether two states agree on what a run was started with.
pub open spec fn same_settings(a: CaptureModel, b: CaptureModel) -> bool {
    &&& a.tracker.process_name == b.tracker.process_name
    &&& a.tracker.use_exact_match == b.tracker.use_exact_match
    &&& a.tracker.check_interval == b.tracker.check_interval
    &&& a.pacing.frame_duration == b.pacing.frame_duration
    &&& a.fps_num == b.fps_num
    &&& a.input_width == b.input_width
    &&& a.input_height == b.input_height
    &&& a.capture_cursor == b.capture_cursor
}

/// One step keeps the settings.
#[verifier::spinoff_prover]
proof fn lemma_step_keeps_settings(s: CaptureModel, event: Event)
    requires
        s.tracker.check_interval == CHECK_INTERVAL,
    ensures
        same_settings(s, s.next(event)),
{
}

/// A run's settings never change: the name and the way it is searched for, the check interval,
/// the frame size, the rate, and whether the cursor is drawn.
#[verifier::spinoff_prover]
#[verifier::rlimit(40)]
pub proof fn law_settings_are_kept(start: CaptureModel, events: Seq<Event>)
    requires
        start.tracker.check_interval == CHECK_INTERVAL,
        runs(start, events),
    ensures
        same_settings(start, run(start, events)),
    decreases events.len(),
{
    if events.len() > 0 {
        law_settings_are_kept(start, events.drop_last());
        lemma_step_keeps_settings(run(start, events.drop_last()), events.last());
    }
}

} // verus!
