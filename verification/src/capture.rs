//! A whole capture run: setting up, following the window, capturing frame after frame.

use vstd::prelude::*;

use crate::error::{react, reaction_to, Reaction, WindowsError};
use crate::frame::{
    action_of, frame_action, frame_next, frame_step_wf, frame_within_limits, process_frame,
    within_limits, FrameProgress, FrameStep, FrameWorld,
};
use crate::platform::{
    bgra8_format, default_usage, shader_resource_flag, BIND_SHADER_RESOURCE, FORMAT_BGRA8,
    USAGE_DEFAULT,
};
use crate::protocol::{answers, is_answer, Action, Event, TexturePoolPlan};
use crate::timing::{frame_duration, nominal_duration, Pacing, PacingModel};
use crate::window::{TrackerModel, WindowCheck, WindowTracker};

verus! {

/// How many textures, and how many samples, are kept for reuse.
pub const POOL_CAPACITY: u32 = 10;

/// The pause before a lost window is looked for again: one millisecond.
pub const SEARCH_PAUSE: u128 = 1000000;

/// The pause before the duplication interface is set up again: a hundred milliseconds.
pub const RECONNECT_PAUSE: u128 = 100000000;

/// Where setting up stands.
#[derive(Clone, Copy, Debug, PartialEq, Eq, Structural)]
pub enum SetupStep {
    StagingTexture,
    BlankTexture,
    TexturePool,
    SamplePool,
    SignalReady,
    Duplication,
}

/// Where a run stands.
#[derive(Clone, Copy, Debug, PartialEq, Eq)]
pub enum Phase {
    /// Resources are created, once per run.
    Setup(SetupStep),
    /// The top of the loop: is the run to go on?
    Poll,
    /// The clock is read to see whether the window is due for a check.
    CheckClock,
    /// The window's handle is checked.
    Probe,
    /// The window is searched for because its handle is invalid.
    Search,
    /// The window is searched for a second time.
    SearchAgain,
    /// The second search found a window; the clock is read to follow it afresh.
    Retrack { hwnd: isize },
    /// The window is gone: a pause before the next turn.
    SearchPause,
    /// The duplication interface is set up again.
    Reconnect,
    /// That failed: a pause before the next turn.
    ReconnectPause,
    /// A frame is captured.
    Frame(FrameStep),
    /// The run is over.
    Finished(Result<(), WindowsError>),
}

/// A capture run.
pub struct Capture {
    tracker: WindowTracker,
    pacing: Pacing,
    last_focus: Option<bool>,
    fps_num: u32,
    input_width: u32,
    input_height: u32,
    capture_cursor: bool,
    frame_count: u64,
    duplication_ready: bool,
    phase: Phase,
}

/// A capture run as the contracts see it.
pub struct CaptureModel {
    /// The window that is followed.
    pub tracker: TrackerModel,
    /// The timing state.
    pub pacing: PacingModel,
    /// The focus that was last reported.
    pub last_focus: Option<bool>,
    pub fps_num: u32,
    pub input_width: u32,
    pub input_height: u32,
    pub capture_cursor: bool,
    /// How many frames were completed.
    pub frame_count: u64,
    /// Whether the duplication interface is usable.
    pub duplication_ready: bool,
    pub phase: Phase,
}

impl View for Capture {
    type V = CaptureModel;

    closed spec fn view(&self) -> CaptureModel {
        CaptureModel {
            tracker: self.tracker@,
            pacing: self.pacing@,
            last_focus: self.last_focus,
            fps_num: self.fps_num,
            input_width: self.input_width,
            input_height: self.input_height,
            capture_cursor: self.capture_cursor,
            frame_count: self.frame_count,
            duplication_ready: self.duplication_ready,
            phase: self.phase,
        }
    }
}

/// The texture pool for frames of the given size.
pub open spec fn pool_plan_for(width: u32, height: u32) -> TexturePoolPlan {
    TexturePoolPlan {
        capacity: POOL_CAPACITY,
        width,
        height,
        format: FORMAT_BGRA8,
        usage: USAGE_DEFAULT,
        bind_flags: BIND_SHADER_RESOURCE,
        cpu_access_flags: 0,
        misc_flags: 0,
    }
}

impl CaptureModel {
    /// A run that has not done anything yet.
    pub open spec fn initial(
        hwnd: isize,
        process_name: Seq<char>,
        fps_num: u32,
        fps_den: u32,
        input_width: u32,
        input_height: u32,
        use_exact_match: bool,
        capture_cursor: bool,
        tracked_since: u128,
        start: u128,
        last_focus: Option<bool>,
    ) -> Self {
        CaptureModel {
            tracker: TrackerModel::fresh(hwnd, process_name, use_exact_match, tracked_since),
            pacing: PacingModel::starting_at(start as int, nominal_duration(fps_num, fps_den)),
            last_focus,
            fps_num,
            input_width,
            input_height,
            capture_cursor,
            frame_count: 0,
            duplication_ready: false,
            phase: Phase::Setup(SetupStep::StagingTexture),
        }
    }

    /// What holds of a run at all times: frames are captured only while the duplication
    /// interface is usable, and sent a second time only while the run is a frame behind.
    pub open spec fn wf(self) -> bool {
        self.phase matches Phase::Frame(step) ==> {
            &&& self.duplication_ready
            &&& frame_step_wf(step, self.pacing)
        }
    }

    /// The outside work that is due.
    pub open spec fn action(self) -> Action {
        match self.phase {
            Phase::Setup(SetupStep::StagingTexture) => Action::CreateStagingTexture {
                width: self.input_width,
                height: self.input_height,
            },
            Phase::Setup(SetupStep::BlankTexture) => Action::CreateBlankTexture {
                width: self.input_width,
                height: self.input_height,
            },
            Phase::Setup(SetupStep::TexturePool) => Action::CreateTexturePool(
                pool_plan_for(self.input_width, self.input_height),
            ),
            Phase::Setup(SetupStep::SamplePool) => Action::CreateSamplePool {
                fps_num: self.fps_num,
                capacity: POOL_CAPACITY,
            },
            Phase::Setup(SetupStep::SignalReady) => Action::SignalReady,
            Phase::Setup(SetupStep::Duplication) => Action::SetupDuplication,
            Phase::Poll => Action::PollRecording,
            Phase::CheckClock => Action::ReadClock,
            Phase::Probe => Action::CheckWindow { hwnd: self.tracker.hwnd },
            Phase::Search => Action::FindWindow { exact: self.tracker.use_exact_match },
            Phase::SearchAgain => Action::FindWindow { exact: self.tracker.use_exact_match },
            Phase::Retrack { .. } => Action::ReadClock,
            Phase::SearchPause => Action::Sleep { nanos: SEARCH_PAUSE },
            Phase::Reconnect => Action::SetupDuplication,
            Phase::ReconnectPause => Action::Sleep { nanos: RECONNECT_PAUSE },
            Phase::Frame(step) => frame_action(step, self.frame_count),
            Phase::Finished(result) => Action::Finish(result),
        }
    }

    /// What a frame reads and changes of this run.
    pub open spec fn world(self) -> FrameWorld {
        FrameWorld { tracker: self.tracker, pacing: self.pacing, last_focus: self.last_focus }
    }

    /// How the pending step of a frame would go on.
    pub open spec fn frame_progress(self, event: Event) -> FrameProgress {
        frame_next(self.phase->Frame_0, event, self.world(), self.capture_cursor).1
    }

    /// Whether an event answers the pending action, and the arithmetic that it calls for stays
    /// within its limits.
    pub open spec fn accepts(self, event: Event) -> bool {
        &&& answers(self.action(), event)
        &&& self.phase matches Phase::Frame(step) ==> {
            &&& frame_within_limits(step, event, self.pacing)
            &&& self.frame_progress(event) == FrameProgress::Finished(Ok(())) ==> self.frame_count
                < u64::MAX
        }
    }

    /// The run in another phase.
    pub open spec fn at(self, phase: Phase) -> Self {
        CaptureModel { phase, ..self }
    }

    /// The next phase of setting up where a resource was created, the end of the run where not.
    pub open spec fn created(self, result: Result<(), WindowsError>, next: SetupStep) -> Self {
        match result {
            Ok(_) => self.at(Phase::Setup(next)),
            Err(e) => self.at(Phase::Finished(Err(e))),
        }
    }

    /// Once there is a window to follow: a frame, or first a new duplication interface.
    pub open spec fn window_settled(self) -> Self {
        if self.duplication_ready {
            self.at(Phase::Frame(FrameStep::QueryForeground))
        } else {
            self.at(Phase::Reconnect)
        }
    }

    /// After a frame has ended.
    pub open spec fn frame_ended(self, reaction: Reaction) -> Self {
        match reaction {
            Reaction::CountFrame => CaptureModel {
                frame_count: (self.frame_count + 1) as u64,
                phase: Phase::Poll,
                ..self
            },
            Reaction::Retry => self.at(Phase::Poll),
            Reaction::Reconnect => CaptureModel {
                duplication_ready: false,
                phase: Phase::Poll,
                ..self
            },
            Reaction::Stop => self.at(Phase::Finished(Ok(()))),
            Reaction::Fail(e) => self.at(Phase::Finished(Err(e))),
        }
    }

    /// After a step of a frame was answered.
    pub open spec fn frame_stepped(self, step: FrameStep, event: Event) -> Self {
        let (world, progress) = frame_next(step, event, self.world(), self.capture_cursor);
        let stepped = CaptureModel {
            tracker: world.tracker,
            pacing: world.pacing,
            last_focus: world.last_focus,
            ..self
        };
        match progress {
            FrameProgress::Continue(next) => stepped.at(Phase::Frame(next)),
            FrameProgress::Finished(result) => stepped.frame_ended(reaction_to(result)),
        }
    }

    /// The run after an event. An event of a kind that does not answer the pending action
    /// changes nothing.
    pub open spec fn next(self, event: Event) -> Self {
        match (self.phase, event) {
            (Phase::Setup(SetupStep::StagingTexture), Event::Completed(result)) => self.created(
                result,
                SetupStep::BlankTexture,
            ),
            (Phase::Setup(SetupStep::BlankTexture), Event::Completed(result)) => self.created(
                result,
                SetupStep::TexturePool,
            ),
            (Phase::Setup(SetupStep::TexturePool), Event::Completed(result)) => self.created(
                result,
                SetupStep::SamplePool,
            ),
            (Phase::Setup(SetupStep::SamplePool), Event::Done) => self.at(
                Phase::Setup(SetupStep::SignalReady),
            ),
            (Phase::Setup(SetupStep::SignalReady), Event::Done) => self.at(
                Phase::Setup(SetupStep::Duplication),
            ),
            (Phase::Setup(SetupStep::Duplication), Event::Completed(result)) => CaptureModel {
                duplication_ready: result is Ok,
                phase: Phase::Poll,
                ..self
            },
            (Phase::Poll, Event::Flag(recording)) => self.at(
                if recording {
                    Phase::CheckClock
                } else {
                    Phase::Finished(Ok(()))
                },
            ),
            (Phase::CheckClock, Event::Time(now)) => {
                let checked = CaptureModel { tracker: self.tracker.after_check(now), ..self };
                if self.tracker.due(now) {
                    checked.at(Phase::Probe)
                } else {
                    checked.window_settled()
                }
            },
            (Phase::Probe, Event::Flag(valid)) => if valid {
                self.window_settled()
            } else {
                self.at(Phase::Search)
            },
            (Phase::Search, Event::Found(found)) => {
                let searched = CaptureModel { tracker: self.tracker.after_search(found), ..self };
                if found is Some {
                    searched.window_settled()
                } else {
                    searched.at(Phase::SearchAgain)
                }
            },
            (Phase::SearchAgain, Event::Found(found)) => match found {
                Some(hwnd) => self.at(Phase::Retrack { hwnd }),
                None => self.at(Phase::SearchPause),
            },
            (Phase::Retrack { hwnd }, Event::Time(now)) => {
                let retracked = CaptureModel {
                    tracker: TrackerModel::fresh(
                        hwnd,
                        self.tracker.process_name,
                        self.tracker.use_exact_match,
                        now,
                    ),
                    ..self
                };
                retracked.window_settled()
            },
            (Phase::SearchPause, Event::Done) => self.at(Phase::Poll),
            (Phase::Reconnect, Event::Completed(result)) => match result {
                Ok(_) => CaptureModel {
                    duplication_ready: true,
                    phase: Phase::Frame(FrameStep::QueryForeground),
                    ..self
                },
                Err(_) => self.at(Phase::ReconnectPause),
            },
            (Phase::ReconnectPause, Event::Done) => self.at(Phase::Poll),
            (Phase::Frame(step), event) => self.frame_stepped(step, event),
            _ => self,
        }
    }
}

/// Starts a run that captures a window.
///
/// Frames are `input_width` by `input_height` pixels and are sent at `fps_num / fps_den` frames
/// per second, the first one due at `start`. The window is `hwnd`, followed since
/// `tracked_since`; where its handle becomes invalid it is searched for by `process_name`.
/// `last_focus` is the focus that was reported last, by this run or one before.
pub fn get_frames(
    hwnd: isize,
    process_name: &str,
    fps_num: u32,
    fps_den: u32,
    input_width: u32,
    input_height: u32,
    use_exact_match: bool,
    capture_cursor: bool,
    tracked_since: u128,
    start: u128,
    last_focus: Option<bool>,
) -> (run: Capture)
    requires
        fps_num > 0,
    ensures
        run@.wf(),
        run@ == CaptureModel::initial(
            hwnd,
            process_name@,
            fps_num,
            fps_den,
            input_width,
            input_height,
            use_exact_match,
            capture_cursor,
            tracked_since,
            start,
            last_focus,
        ),
        run@.tracker.hwnd == hwnd,
        run@.tracker.process_name == process_name@,
        run@.tracker.last_check == tracked_since,
        run@.tracker.check_interval == 2000000000,
        !run@.tracker.ever_focused,
        run@.tracker.use_exact_match == use_exact_match,
        run@.pacing.next_frame_time == start,
        run@.pacing.frame_duration * fps_num <= 1000000000 * fps_den,
        1000000000 * fps_den < (run@.pacing.frame_duration + 1) * fps_num,
        run@.pacing.accumulated_delay == 0,
        run@.pacing.num_duped == 0,
        run@.last_focus == last_focus,
        run@.fps_num == fps_num,
        run@.input_width == input_width,
        run@.input_height == input_height,
        run@.capture_cursor == capture_cursor,
        run@.frame_count == 0,
        !run@.duplication_ready,
        run@.phase == Phase::Setup(SetupStep::StagingTexture),
{
    Capture {
        tracker: WindowTracker::new_with_exact_match(
            hwnd,
            process_name,
            use_exact_match,
            tracked_since,
        ),
        pacing: Pacing::new(start, frame_duration(fps_num, fps_den)),
        last_focus,
        fps_num,
        input_width,
        input_height,
        capture_cursor,
        frame_count: 0,
        duplication_ready: false,
        phase: Phase::Setup(SetupStep::StagingTexture),
    }
}

impl Capture {
    /// The outside work that is due.
    pub fn action(&self) -> (action: Action)
        ensures
            action == self@.action(),
    {
        match self.phase {
            Phase::Setup(SetupStep::StagingTexture) => Action::CreateStagingTexture {
                width: self.input_width,
                height: self.input_height,
            },
            Phase::Setup(SetupStep::BlankTexture) => Action::CreateBlankTexture {
                width: self.input_width,
                height: self.input_height,
            },
            Phase::Setup(SetupStep::TexturePool) => Action::CreateTexturePool(
                TexturePoolPlan {
                    capacity: POOL_CAPACITY,
                    width: self.input_width,
                    height: self.input_height,
                    format: bgra8_format(),
                    usage: default_usage(),
                    bind_flags: shader_resource_flag(),
                    cpu_access_flags: 0,
                    misc_flags: 0,
                },
            ),
            Phase::Setup(SetupStep::SamplePool) => Action::CreateSamplePool {
                fps_num: self.fps_num,
                capacity: POOL_CAPACITY,
            },
            Phase::Setup(SetupStep::SignalReady) => Action::SignalReady,
            Phase::Setup(SetupStep::Duplication) | Phase::Reconnect => Action::SetupDuplication,
            Phase::Poll => Action::PollRecording,
            Phase::CheckClock | Phase::Retrack { .. } => Action::ReadClock,
            Phase::Probe => Action::CheckWindow { hwnd: self.tracker.hwnd },
            Phase::Search | Phase::SearchAgain => Action::FindWindow {
                exact: self.tracker.use_exact_match,
            },
            Phase::SearchPause => Action::Sleep { nanos: SEARCH_PAUSE },
            Phase::ReconnectPause => Action::Sleep { nanos: RECONNECT_PAUSE },
            Phase::Frame(step) => action_of(&step, self.frame_count),
            Phase::Finished(result) => Action::Finish(result),
        }
    }

    /// Tells whether `step` can be called with an event: it has to answer the pending action,
    /// and the numbers that it leads to have to be expressible.
    pub fn can_step(&self, event: &Event) -> (b: bool)
        ensures
            b == self@.accepts(*event),
    {
        if !is_answer(&self.action(), event) {
            return false;
        }
        match self.phase {
            Phase::Frame(step) => {
                if !within_limits(&step, event, &self.pacing) {
                    return false;
                }
                let completes: bool = match (step, *event) {
                    (FrameStep::Pause { .. }, _) => true,
                    (FrameStep::ReadClock, Event::Time(now)) => now > self.pacing.next_frame_time,
                    _ => false,
                };
                !completes || self.frame_count < u64::MAX
            },
            _ => true,
        }
    }

    /// Moves the run on by the answer to its pending action.
    pub fn step(&mut self, event: Event)
        requires
            old(self)@.wf(),
            old(self)@.accepts(event),
        ensures
            final(self)@ == old(self)@.next(event),
            final(self)@.wf(),
    {
        match (self.phase, event) {
            (Phase::Setup(SetupStep::StagingTexture), Event::Completed(result)) => {
                self.resource_created(result, SetupStep::BlankTexture);
            },
            (Phase::Setup(SetupStep::BlankTexture), Event::Completed(result)) => {
                self.resource_created(result, SetupStep::TexturePool);
            },
            (Phase::Setup(SetupStep::TexturePool), Event::Completed(result)) => {
                self.resource_created(result, SetupStep::SamplePool);
            },
            (Phase::Setup(SetupStep::SamplePool), Event::Done) => {
                self.phase = Phase::Setup(SetupStep::SignalReady);
            },
            (Phase::Setup(SetupStep::SignalReady), Event::Done) => {
                self.phase = Phase::Setup(SetupStep::Duplication);
            },
            (Phase::Setup(SetupStep::Duplication), Event::Completed(result)) => {
                self.duplication_ready = result.is_ok();
                self.phase = Phase::Poll;
            },
            (Phase::Poll, Event::Flag(recording)) => {
                self.phase =
                if recording {
                    Phase::CheckClock
                } else {
                    Phase::Finished(Ok(()))
                };
            },
            (Phase::CheckClock, Event::Time(now)) => {
                let check = self.tracker.ensure_valid_window(now);
                self.window_checked(check);
            },
            (Phase::Probe, Event::Flag(valid)) => {
                let check = self.tracker.window_probed(valid);
                self.window_checked(check);
            },
            (Phase::Search, Event::Found(found)) => {
                let check = self.tracker.window_searched(found);
                self.window_checked(check);
            },
            (Phase::SearchAgain, Event::Found(found)) => {
                self.phase =
                match found {
                    Some(hwnd) => Phase::Retrack { hwnd },
                    None => Phase::SearchPause,
                };
            },
            (Phase::Retrack { hwnd }, Event::Time(now)) => {
                self.tracker =
                WindowTracker::new_with_exact_match(
                    hwnd,
                    self.tracker.process_name.as_str(),
                    self.tracker.use_exact_match,
                    now,
                );
                self.window_checked(WindowCheck::Settled(true));
            },
            (Phase::SearchPause, Event::Done) | (Phase::ReconnectPause, Event::Done) => {
                self.phase = Phase::Poll;
            },
            (Phase::Reconnect, Event::Completed(result)) => {
                if result.is_ok() {
                    self.duplication_ready = true;
                    self.phase = Phase::Frame(FrameStep::QueryForeground);
                } else {
                    self.phase = Phase::ReconnectPause;
                }
            },
            (Phase::Frame(step), event) => {
                let progress = process_frame(
                    step,
                    event,
                    &mut self.tracker,
                    &mut self.pacing,
                    &mut self.last_focus,
                    self.capture_cursor,
                );
                match progress {
                    FrameProgress::Continue(next) => {
                        self.phase = Phase::Frame(next);
                    },
                    FrameProgress::Finished(result) => {
                        self.frame_finished(react(result));
                    },
                }
            },
            _ => {},
        }
    }

    /// Goes on with setting up, or ends the run with the error.
    fn resource_created(&mut self, result: Result<(), WindowsError>, next: SetupStep)
        ensures
            final(self)@ == old(self)@.created(result, next),
    {
        self.phase =
        match result {
            Ok(_) => Phase::Setup(next),
            Err(e) => Phase::Finished(Err(e)),
        };
    }

    /// Goes on after a part of a window check.
    fn window_checked(&mut self, check: WindowCheck)
        ensures
            final(self)@ == (match check {
                WindowCheck::Settled(true) => old(self)@.window_settled(),
                WindowCheck::Settled(false) => old(self)@.at(Phase::SearchAgain),
                WindowCheck::Probe => old(self)@.at(Phase::Probe),
                WindowCheck::Search => old(self)@.at(Phase::Search),
            }),
    {
        self.phase =
        match check {
            WindowCheck::Settled(true) => if self.duplication_ready {
                Phase::Frame(FrameStep::QueryForeground)
            } else {
                Phase::Reconnect
            },
            WindowCheck::Settled(false) => Phase::SearchAgain,
            WindowCheck::Probe => Phase::Probe,
            WindowCheck::Search => Phase::Search,
        };
    }

    /// Goes on after a frame has ended.
    fn frame_finished(&mut self, reaction: Reaction)
        requires
            reaction is CountFrame ==> old(self)@.frame_count < u64::MAX,
        ensures
            final(self)@ == old(self)@.frame_ended(reaction),
    {
        match reaction {
            Reaction::CountFrame => {
                self.frame_count = self.frame_count + 1;
                self.phase = Phase::Poll;
            },
            Reaction::Retry => {
                self.phase = Phase::Poll;
            },
            Reaction::Reconnect => {
                self.duplication_ready = false;
                self.phase = Phase::Poll;
            },
            Reaction::Stop => {
                self.phase = Phase::Finished(Ok(()));
            },
            Reaction::Fail(e) => {
                self.phase = Phase::Finished(Err(e));
            },
        }
    }

    /// The name that the window is searched for by.
    pub fn process_name(&self) -> (name: &str)
        ensures
            name@ == self@.tracker.process_name,
    {
        self.tracker.process_name.as_str()
    }

    /// The focus that was last reported.
    pub fn last_focus(&self) -> (focus: Option<bool>)
        ensures
            focus == self@.last_focus,
    {
        self.last_focus
    }

    /// How many frames were completed.
    pub fn frame_count(&self) -> (n: u64)
        ensures
            n == self@.frame_count,
    {
        self.frame_count
    }

    /// How many frames were sent again to make up for lateness.
    pub fn num_duped(&self) -> (n: u64)
        ensures
            n == self@.pacing.num_duped,
    {
        self.pacing.num_duped
    }
}

} // verus!
