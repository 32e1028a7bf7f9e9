//! Setting up.

use vstd::prelude::*;

use crate::capture::{CaptureModel, Phase, SetupStep};
use crate::error::WindowsError;
use crate::laws::{run, runs, succeeded};
use crate::protocol::{Action, Event};

verus! {

/// How many resources are created before a step of setting up.
pub open spec fn setup_rank(step: SetupStep) -> int {
    match step {
        SetupStep::StagingTexture => 0,
        SetupStep::BlankTexture => 1,
        SetupStep::TexturePool => 2,
        SetupStep::SamplePool => 3,
        SetupStep::SignalReady => 4,
        SetupStep::Duplication => 5,
    }
}

/// A step that stays within setting up goes one further, and only on success.
proof fn lemma_setup_step(s: CaptureModel, event: Event)
    requires
        s.accepts(event),
        s.next(event).phase is Setup,
    ensures
        s.phase is Setup,
        setup_rank(s.next(event).phase->Setup_0) == setup_rank(s.phase->Setup_0) + 1,
        if setup_rank(s.phase->Setup_0) < 3 {
            succeeded(event)
        } else {
            event is Done
        },
{
}

/// Setting up takes its steps in order, each once, and gets past a step only when it succeeded.
/// So the other threads are told at most once that capturing can begin, and only after both
/// textures and both pools exist.
#[verifier::spinoff_prover]
#[verifier::rlimit(40)]
pub proof fn law_ready_only_after_resources(start: CaptureModel, events: Seq<Event>)
    requires
        start.phase == Phase::Setup(SetupStep::StagingTexture),
        runs(start, events),
        run(start, events).phase is Setup,
    ensures
        events.len() == setup_rank(run(start, events).phase->Setup_0),
        forall|i: int|
            0 <= i < events.len() ==> {
                let phase = (#[trigger] run(start, events.take(i))).phase;
                &&& phase is Setup
                &&& setup_rank(phase->Setup_0) == i
                &&& if i < 3 {
                    succeeded(events[i])
                } else {
                    events[i] is Done
                }
            },
    decreases events.len(),
{
    if events.len() > 0 {
        let before = events.drop_last();
        lemma_setup_step(run(start, before), events.last());
        law_ready_only_after_resources(start, before);
        assert forall|i: int| 0 <= i < events.len() implies {
            let phase = (#[trigger] run(start, events.take(i))).phase;
            &&& phase is Setup
            &&& setup_rank(phase->Setup_0) == i
            &&& if i < 3 {
                succeeded(events[i])
            } else {
                events[i] is Done
            }
        } by {
            if i < before.len() {
                assert(before.take(i) =~= events.take(i));
                assert(run(start, before.take(i)).phase is Setup);
                assert(before[i] == events[i]);
            } else {
                assert(events.take(i) =~= before);
            }
        }
    }
}

/// Creating the resources takes one step each.
proof fn lemma_setup_goes_on(start: CaptureModel, created: nat)
    requires
        start.phase == Phase::Setup(SetupStep::StagingTexture),
        created <= 3,
    ensures
        ({
            let events = Seq::new(created, |i: int| Event::Completed(Ok(())));
            &&& runs(start, events)
            &&& run(start, events).phase is Setup
            &&& setup_rank(run(start, events).phase->Setup_0) == created
        }),
    decreases created,
{
    if created > 0 {
        let events = Seq::new(created, |i: int| Event::Completed(Ok(())));
        lemma_setup_goes_on(start, (created - 1) as nat);
        assert(events.drop_last() =~= Seq::new(
            (created - 1) as nat,
            |i: int| Event::Completed(Ok(())),
        ));
    }
}

/// A resource that cannot be created ends the run with its error, and the other threads are
/// never told that capturing can begin.
#[verifier::spinoff_prover]
#[verifier::rlimit(40)]
pub proof fn law_setup_failure_ends_the_run(start: CaptureModel, created: nat, e: WindowsError)
    requires
        start.phase == Phase::Setup(SetupStep::StagingTexture),
        created < 3,
    ensures
        ({
            let events = Seq::new(created, |i: int| Event::Completed(Ok(()))).push(
                Event::Completed(Err(e)),
            );
            &&& runs(start, events)
            &&& run(start, events).action() == Action::Finish(Err(e))
            &&& forall|i: int|
                0 <= i < events.len() ==> (#[trigger] run(start, events.take(i))).action()
                    != Action::SignalReady
        }),
{
    let oks = Seq::new(created, |i: int| Event::Completed(Ok(())));
    let events = oks.push(Event::Completed(Err(e)));
    lemma_setup_goes_on(start, created);
    assert(events.drop_last() =~= oks);
    law_ready_only_after_resources(start, oks);
    assert forall|i: int| 0 <= i < events.len() implies (#[trigger] run(
        start,
        events.take(i),
    )).action() != Action::SignalReady by {
        if i < oks.len() {
            assert(events.take(i) =~= oks.take(i));
            assert(run(start, oks.take(i)).phase is Setup);
        } else {
            assert(events.take(i) =~= oks);
        }
    }
}

} // verus!
