//! Failures: what a run survives, and what ends it.

use vstd::prelude::*;

use crate::capture::{CaptureModel, Phase};
use crate::error::{FrameError, WindowsError};
use crate::frame::FrameStep;
use crate::laws::{law_always_well_formed, run, runs, succeeded};
use crate::platform::{ACCESS_LOST, WAIT_TIMEOUT};
use crate::protocol::{Action, Event};

verus! {

/// A frame that does not arrive in time costs nothing: the run takes its next turn, and nothing
/// else has changed.
pub proof fn law_timeout_changes_nothing(s: CaptureModel, e: WindowsError)
    requires
        s.phase is Frame,
        s.phase->Frame_0 is AcquireFrame,
        e.code == WAIT_TIMEOUT,
    ensures
        s.next(Event::Acquired(Err(e))) == s.at(Phase::Poll),
{
}

/// An exhausted texture pool costs the frame and nothing else.
pub proof fn law_exhausted_pool_changes_nothing(s: CaptureModel, e: WindowsError)
    requires
        s.phase is Frame,
        s.phase->Frame_0 is AcquireTexture,
    ensures
        s.next(Event::Completed(Err(e))).action() == Action::UnlockContext,
        s.next(Event::Completed(Err(e))).next(Event::Done) == s.at(Phase::Poll),
{
    assert(s.next(Event::Completed(Err(e))) == s.at(
        Phase::Frame(FrameStep::UnlockContext { failure: Some(FrameError::TexturePoolError) }),
    ));
}

/// Losing access to the desktop costs the frame and the duplication interface.
pub proof fn law_access_lost(s: CaptureModel, e: WindowsError)
    requires
        s.phase is Frame,
        s.phase->Frame_0 is AcquireFrame,
        e.code == ACCESS_LOST,
    ensures
        s.next(Event::Acquired(Err(e))) == (CaptureModel {
            duplication_ready: false,
            phase: Phase::Poll,
            ..s
        }),
{
}

/// A system error that comes up while the context is held has the same effect as one in
/// acquiring the frame, once the context is given up: a timeout costs the frame, lost access costs
/// the frame and the duplication interface, and every other error ends the run.
pub proof fn law_failure_with_context(s: CaptureModel, e: WindowsError)
    requires
        s.phase == Phase::Frame(
            FrameStep::UnlockContext { failure: Some(FrameError::WindowsError(e)) },
        ),
    ensures
        e.code == WAIT_TIMEOUT ==> s.next(Event::Done) == s.at(Phase::Poll),
        e.code == ACCESS_LOST ==> s.next(Event::Done) == (CaptureModel {
            duplication_ready: false,
            phase: Phase::Poll,
            ..s
        }),
        e.code != WAIT_TIMEOUT && e.code != ACCESS_LOST ==> s.next(Event::Done) == s.at(
            Phase::Finished(Err(e)),
        ),
{
}

/// Casting and releasing the frame are the calls whose errors are kept until the context is given
/// up.
pub proof fn law_failed_cast_or_release(s: CaptureModel, e: WindowsError)
    requires
        s.phase is Frame,
        s.phase->Frame_0 is CastResource || s.phase->Frame_0 is ReleaseFrame,
    ensures
        s.next(Event::Completed(Err(e))) == s.at(
            Phase::Frame(FrameStep::UnlockContext { failure: Some(FrameError::WindowsError(e)) }),
        ),
{
}

/// Without a usable duplication interface, a step leads to one only by setting it up.
#[verifier::spinoff_prover]
proof fn lemma_step_duplication(s: CaptureModel, event: Event)
    requires
        s.wf(),
        s.accepts(event),
        !s.duplication_ready,
    ensures
        s.next(event).duplication_ready ==> s.action() == Action::SetupDuplication && succeeded(
            event,
        ),
{
}

/// Without a usable duplication interface no frame is captured, until one is set up with
/// success.
#[verifier::spinoff_prover]
#[verifier::rlimit(40)]
pub proof fn law_no_frames_before_reconnecting(start: CaptureModel, events: Seq<Event>)
    requires
        start.wf(),
        !start.duplication_ready,
        runs(start, events),
        forall|i: int|
            0 <= i < events.len() ==> (#[trigger] run(start, events.take(i))).action()
                == Action::SetupDuplication ==> !succeeded(events[i]),
    ensures
        !run(start, events).duplication_ready,
        !(run(start, events).phase is Frame),
    decreases events.len(),
{
    law_always_well_formed(start, events);
    if events.len() > 0 {
        let before = events.drop_last();
        assert forall|i: int|
            0 <= i < before.len() && (#[trigger] run(start, before.take(i))).action()
                == Action::SetupDuplication implies !succeeded(before[i]) by {
            assert(before.take(i) =~= events.take(i));
        }
        law_no_frames_before_reconnecting(start, before);
        law_always_well_formed(start, before);
        assert(events.take(events.len() - 1) =~= before);
        assert(run(start, events.take(events.len() - 1)) == run(start, before));
        lemma_step_duplication(run(start, before), events.last());
    }
}

/// The reasons for which a run ends. It ends without an error when it is told to stop or when a
/// sample cannot be sent. It ends with an error when a resource cannot be created, or when a
/// frame fails with a system error that is neither a timeout nor the loss of access.
#[verifier::spinoff_prover]
pub proof fn law_why_a_run_ends(s: CaptureModel, event: Event)
    requires
        s.wf(),
        s.accepts(event),
        s.next(event).phase is Finished,
    ensures
        match s.next(event).phase->Finished_0 {
            Ok(_) => {
                ||| s.phase is Poll && event == Event::Flag(false)
                ||| s.phase is Frame && s.phase->Frame_0 is Send && event is Completed
                    && !succeeded(event)
            },
            Err(e) => {
                ||| s.phase is Setup && event == Event::Completed(Err(e))
                ||| {
                    &&& s.phase is Frame
                    &&& e.code != WAIT_TIMEOUT
                    &&& e.code != ACCESS_LOST
                    &&& {
                        ||| s.phase->Frame_0 is AcquireFrame && event == Event::Acquired(Err(e))
                        ||| s.phase->Frame_0 == (FrameStep::UnlockContext {
                            failure: Some(FrameError::WindowsError(e)),
                        })
                    }
                }
            },
        },
{
}

/// Where the receiver of the samples is gone, or no sample can be had, the run ends at once and
/// without an error.
pub proof fn law_failed_send_ends_the_run(s: CaptureModel, e: WindowsError)
    requires
        s.phase is Frame,
        s.phase->Frame_0 is Send,
    ensures
        s.next(Event::Completed(Err(e))) == s.at(Phase::Finished(Ok(()))),
{
}

/// A run that is over stays over: it accepts no event.
pub proof fn law_the_end_is_final(s: CaptureModel, event: Event)
    requires
        s.phase is Finished,
    ensures
        !s.accepts(event),
        s.next(event) == s,
{
}

} // verus!
