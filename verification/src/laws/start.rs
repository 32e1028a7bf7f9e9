//! How a run begins, and what it keeps of its arguments.

use vstd::prelude::*;

use crate::capture::{CaptureModel, Phase, SetupStep};
use crate::laws::{law_settings_are_kept, run, runs};
use crate::protocol::{Action, Event};
use crate::timing::lemma_rate;

verus! {

/// A run begins with what it was asked for and with nothing done: the window, the name and the way
/// it is searched for, the rate, the size, the cursor; no frame counted, none duplicated, no delay.
pub proof fn law_start(
    hwnd: isize,
    process_name: Seq<char>,
    fps_num: u32,
    fps_den: u32,
    input_width: u32,
    input_height: u32,
    use_exact_match: bool,
    capture_cursor: bool,
    tracked_since: u128,
    start: u128,
    last_focus: Option<bool>,
)
    requires
        fps_num > 0,
    ensures
        ({
            let s = CaptureModel::initial(
                hwnd,
                process_name,
                fps_num,
                fps_den,
                input_width,
                input_height,
                use_exact_match,
                capture_cursor,
                tracked_since,
                start,
                last_focus,
            );
            &&& s.wf()
            &&& s.tracker.hwnd == hwnd
            &&& s.tracker.process_name == process_name
            &&& s.tracker.last_check == tracked_since
            &&& s.tracker.check_interval == 2000000000
            &&& !s.tracker.ever_focused
            &&& s.tracker.use_exact_match == use_exact_match
            &&& s.pacing.next_frame_time == start
            &&& s.pacing.frame_duration * fps_num <= 1000000000 * fps_den
            &&& 1000000000 * fps_den < (s.pacing.frame_duration + 1) * fps_num
            &&& s.pacing.accumulated_delay == 0
            &&& s.pacing.num_duped == 0
            &&& s.last_focus == last_focus
            &&& s.fps_num == fps_num
            &&& s.input_width == input_width
            &&& s.input_height == input_height
            &&& s.capture_cursor == capture_cursor
            &&& s.frame_count == 0
            &&& !s.duplication_ready
            &&& s.phase == Phase::Setup(SetupStep::StagingTexture)
            &&& s.action() == (Action::CreateStagingTexture {
                width: input_width,
                height: input_height,
            })
        }),
{
    lemma_rate(fps_num, fps_den);
}

/// What a state asks for agrees with its settings.
#[verifier::spinoff_prover]
proof fn lemma_action_settings(s: CaptureModel)
    ensures
        s.action() matches Action::FindWindow { exact } ==> exact == s.tracker.use_exact_match,
        s.action() matches Action::CreateStagingTexture { width, height } ==> (width, height) == (
            s.input_width,
            s.input_height,
        ),
        s.action() matches Action::CreateBlankTexture { width, height } ==> (width, height) == (
            s.input_width,
            s.input_height,
        ),
        s.action() matches Action::CreateTexturePool(plan) ==> (plan.width, plan.height) == (
            s.input_width,
            s.input_height,
        ),
        s.action() matches Action::CreateSamplePool { fps_num, .. } ==> fps_num == s.fps_num,
        s.action() matches Action::CheckWindow { hwnd } ==> hwnd == s.tracker.hwnd,
{
}

/// The cursor is read only in runs that capture it.
#[verifier::spinoff_prover]
proof fn lemma_step_reads_cursor(s: CaptureModel, event: Event)
    requires
        s.accepts(event),
        s.next(event).action() == Action::ReadCursor,
    ensures
        s.capture_cursor,
{
}

/// Whatever a run goes through, it works with the arguments that it was started with. Every search
/// compares titles in the way that was asked for, and goes by the name that was given; every
/// texture and pool has the size that was given; frames last as long as the given rate says; and
/// the cursor is read only where that was asked for.
#[verifier::spinoff_prover]
pub proof fn law_run_keeps_to_its_arguments(
    hwnd: isize,
    process_name: Seq<char>,
    fps_num: u32,
    fps_den: u32,
    input_width: u32,
    input_height: u32,
    use_exact_match: bool,
    capture_cursor: bool,
    tracked_since: u128,
    start: u128,
    last_focus: Option<bool>,
    events: Seq<Event>,
)
    requires
        fps_num > 0,
        runs(
            CaptureModel::initial(
                hwnd,
                process_name,
                fps_num,
                fps_den,
                input_width,
                input_height,
                use_exact_match,
                capture_cursor,
                tracked_since,
                start,
                last_focus,
            ),
            events,
        ),
    ensures
        ({
            let end = run(
                CaptureModel::initial(
                    hwnd,
                    process_name,
                    fps_num,
                    fps_den,
                    input_width,
                    input_height,
                    use_exact_match,
                    capture_cursor,
                    tracked_since,
                    start,
                    last_focus,
                ),
                events,
            );
            &&& end.tracker.process_name == process_name
            &&& end.tracker.check_interval == 2000000000
            &&& end.pacing.frame_duration * fps_num <= 1000000000 * fps_den
            &&& 1000000000 * fps_den < (end.pacing.frame_duration + 1) * fps_num
            &&& end.action() matches Action::FindWindow { exact } ==> exact == use_exact_match
            &&& end.action() matches Action::CreateStagingTexture { width, height } ==> (
                width,
                height,
            ) == (input_width, input_height)
            &&& end.action() matches Action::CreateBlankTexture { width, height } ==> (
                width,
                height,
            ) == (input_width, input_height)
            &&& end.action() matches Action::CreateTexturePool(plan) ==> (plan.width, plan.height)
                == (input_width, input_height)
            &&& end.action() matches Action::CreateSamplePool { fps_num: rate, .. } ==> rate
                == fps_num
            &&& end.action() == Action::ReadCursor ==> capture_cursor
        }),
{
    let s = CaptureModel::initial(
        hwnd,
        process_name,
        fps_num,
        fps_den,
        input_width,
        input_height,
        use_exact_match,
        capture_cursor,
        tracked_since,
        start,
        last_focus,
    );
    law_start(
        hwnd,
        process_name,
        fps_num,
        fps_den,
        input_width,
        input_height,
        use_exact_match,
        capture_cursor,
        tracked_since,
        start,
        last_focus,
    );
    law_settings_are_kept(s, events);
    lemma_action_settings(run(s, events));
    if run(s, events).action() == Action::ReadCursor {
        assert(events.len() > 0);
        let before = events.drop_last();
        law_settings_are_kept(s, before);
        lemma_step_reads_cursor(run(s, before), events.last());
    }
}

} // verus!
