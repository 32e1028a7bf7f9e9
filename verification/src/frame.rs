//! One frame: acquire, compose, send, and wait for the next.

use vstd::prelude::*;

use crate::cursor::{draw_cursor, plan_for, CopyRegion, CursorInfo, CursorPlan, CursorTexture};
use crate::error::{FrameError, WindowsError};
use crate::protocol::{Action, Event};
use crate::send::{send_frame, send_progress, SendProgress, SendStage};
use crate::timing::{handle_frame_timing, Pacing, PacingModel};
use crate::window::{focus_changed, note_focus, TrackerModel, WindowTracker};

verus! {

/// How long acquiring a frame may take, in milliseconds.
pub const ACQUIRE_TIMEOUT_MILLIS: u32 = 16;

/// Where the work on a frame stands.
#[allow(inconsistent_fields)]
#[derive(Clone, Copy, Debug, PartialEq, Eq)]
pub enum FrameStep {
    QueryForeground,
    ReportFocus { focused: bool },
    AcquireFrame { focused: bool },
    ReadCursor { focused: bool, has_image: bool },
    LockContext { focused: bool, has_image: bool, cursor: Option<CursorInfo> },
    AcquireTexture { focused: bool, cursor: Option<CursorInfo> },
    CastResource { focused: bool, cursor: Option<CursorInfo> },
    CopySource { cursor: Option<CursorInfo> },
    DescribeTarget { cursor: CursorInfo },
    CreateCursor { texture: CursorTexture, region: Option<CopyRegion> },
    CopyCursor { region: CopyRegion },
    CopyPooled,
    CopyBlank,
    ReleaseFrame,
    ReleaseTexture,
    /// The context is given up, either to send the frame or because of a failure.
    UnlockContext { failure: Option<FrameError> },
    /// The frame is sent, once more than needed where `duplicate` is set.
    Send { duplicate: bool, stage: SendStage },
    ReadClock,
    Pause { nanos: u128 },
}

/// How a frame goes on after a step.
#[derive(Clone, Copy, Debug, PartialEq, Eq)]
pub enum FrameProgress {
    Continue(FrameStep),
    Finished(Result<(), FrameError>),
}

/// What a frame reads and changes of its run.
pub struct FrameWorld {
    pub tracker: TrackerModel,
    pub pacing: PacingModel,
    pub last_focus: Option<bool>,
}

/// The outside work that a step asks for, in the frame with the given count.
pub open spec fn frame_action(step: FrameStep, frame_count: u64) -> Action {
    match step {
        FrameStep::QueryForeground => Action::QueryForeground,
        FrameStep::ReportFocus { focused } => Action::ReportFocus { focused },
        FrameStep::AcquireFrame { .. } => Action::AcquireFrame {
            timeout_millis: ACQUIRE_TIMEOUT_MILLIS,
        },
        FrameStep::ReadCursor { .. } => Action::ReadCursor,
        FrameStep::LockContext { .. } => Action::LockContext,
        FrameStep::AcquireTexture { .. } => Action::AcquireTexture,
        FrameStep::CastResource { .. } => Action::CastResource,
        FrameStep::CopySource { .. } => Action::CopySourceToPooled,
        FrameStep::DescribeTarget { .. } => Action::DescribePooled,
        FrameStep::CreateCursor { texture, .. } => Action::CreateCursorTexture(texture),
        FrameStep::CopyCursor { region } => Action::CopyCursor(region),
        FrameStep::CopyPooled => Action::CopyPooledToStaging,
        FrameStep::CopyBlank => Action::CopyBlankToStaging,
        FrameStep::ReleaseFrame => Action::ReleaseFrame,
        FrameStep::ReleaseTexture => Action::ReleaseTexture,
        FrameStep::UnlockContext { .. } => Action::UnlockContext,
        FrameStep::Send { stage: SendStage::AcquireSample, .. } => Action::AcquireSample,
        FrameStep::Send { stage: SendStage::SetSampleTime, .. } => Action::SetSampleTime {
            frame_count,
        },
        FrameStep::Send { stage: SendStage::SendSample, .. } => Action::SendSample,
        FrameStep::ReadClock => Action::ReadClock,
        FrameStep::Pause { nanos } => Action::Sleep { nanos },
    }
}

/// The first step of sending: a duplicate while the run is a whole frame behind.
pub open spec fn send_step(pacing: PacingModel) -> FrameStep {
    FrameStep::Send { duplicate: pacing.owes_duplicate(), stage: SendStage::AcquireSample }
}

/// Goes on where a step with a fallible action succeeded; a failure gives the context up.
pub open spec fn or_unlock(
    result: Result<(), WindowsError>,
    next: FrameStep,
    failure: FrameError,
) -> FrameStep {
    match result {
        Ok(_) => next,
        Err(_) => FrameStep::UnlockContext { failure: Some(failure) },
    }
}

/// What follows on copying the desktop: a visible cursor with an image is drawn.
pub open spec fn after_source_copy(cursor: Option<CursorInfo>) -> FrameStep {
    match cursor {
        Some(info) => if info.drawable() {
            FrameStep::DescribeTarget { cursor: info }
        } else {
            FrameStep::CopyPooled
        },
        None => FrameStep::CopyPooled,
    }
}

/// What follows on measuring the target of the cursor.
pub open spec fn after_describe(cursor: CursorInfo, width: u32, height: u32) -> FrameStep {
    match plan_for(cursor, width, height) {
        CursorPlan::Skip => FrameStep::CopyPooled,
        CursorPlan::Draw { texture, region } => FrameStep::CreateCursor { texture, region },
    }
}

/// What follows on creating the cursor's texture; a failure is passed over.
pub open spec fn after_cursor_texture(
    result: Result<(), WindowsError>,
    region: Option<CopyRegion>,
) -> FrameStep {
    match (result, region) {
        (Ok(_), Some(region)) => FrameStep::CopyCursor { region },
        _ => FrameStep::CopyPooled,
    }
}

/// What the outcome of a sending stage does to the timing, and how the frame goes on.
pub open spec fn after_send(
    duplicate: bool,
    stage: SendStage,
    result: Result<(), WindowsError>,
    pacing: PacingModel,
) -> (PacingModel, FrameProgress) {
    match send_progress(stage, result) {
        SendProgress::Failed(_) => (
            pacing,
            FrameProgress::Finished(Err(FrameError::ChannelClosed)),
        ),
        SendProgress::Continue(stage) => (
            pacing,
            FrameProgress::Continue(FrameStep::Send { duplicate, stage }),
        ),
        SendProgress::Sent => if duplicate {
            (
                pacing.after_duplicate(),
                FrameProgress::Continue(send_step(pacing.after_duplicate())),
            )
        } else {
            (pacing.after_frame(), FrameProgress::Continue(FrameStep::ReadClock))
        },
    }
}

/// How a frame ends once the clock is read: at once when it is late, else after a pause until
/// the next frame is due.
pub open spec fn after_clock(pacing: PacingModel, now: u128) -> FrameProgress {
    if now > pacing.next_frame_time {
        FrameProgress::Finished(Ok(()))
    } else {
        FrameProgress::Continue(
            FrameStep::Pause { nanos: (pacing.next_frame_time - now) as u128 },
        )
    }
}

/// How a frame goes on after a step was answered, and what that changes of the run. An event of
/// a kind that does not answer the step changes nothing.
pub open spec fn frame_next(
    step: FrameStep,
    event: Event,
    world: FrameWorld,
    capture_cursor: bool,
) -> (FrameWorld, FrameProgress) {
    match (step, event) {
        (FrameStep::QueryForeground, Event::Foreground(foreground)) => {
            let focused = world.tracker.focused(foreground);
            (
                FrameWorld {
                    tracker: world.tracker.after_focus(foreground),
                    last_focus: Some(focused),
                    ..world
                },
                FrameProgress::Continue(
                    if focus_changed(world.last_focus, focused) {
                        FrameStep::ReportFocus { focused }
                    } else {
                        FrameStep::AcquireFrame { focused }
                    },
                ),
            )
        },
        (FrameStep::ReportFocus { focused }, Event::Done) => (
            world,
            FrameProgress::Continue(FrameStep::AcquireFrame { focused }),
        ),
        (FrameStep::AcquireFrame { focused }, Event::Acquired(Ok(has_image))) => (
            world,
            FrameProgress::Continue(
                if capture_cursor {
                    FrameStep::ReadCursor { focused, has_image }
                } else {
                    FrameStep::LockContext { focused, has_image, cursor: None }
                },
            ),
        ),
        (FrameStep::AcquireFrame { .. }, Event::Acquired(Err(e))) => (
            world,
            FrameProgress::Finished(Err(FrameError::WindowsError(e))),
        ),
        (FrameStep::ReadCursor { focused, has_image }, Event::Cursor(read)) => (
            world,
            FrameProgress::Continue(
                FrameStep::LockContext {
                    focused,
                    has_image,
                    cursor: match read {
                        Ok(info) => Some(info),
                        Err(_) => None,
                    },
                },
            ),
        ),
        (FrameStep::LockContext { focused, has_image, cursor }, Event::Done) => (
            world,
            FrameProgress::Continue(
                if has_image {
                    FrameStep::AcquireTexture { focused, cursor }
                } else {
                    FrameStep::UnlockContext { failure: None }
                },
            ),
        ),
        (FrameStep::AcquireTexture { focused, cursor }, Event::Completed(result)) => (
            world,
            FrameProgress::Continue(
                or_unlock(
                    result,
                    FrameStep::CastResource { focused, cursor },
                    FrameError::TexturePoolError,
                ),
            ),
        ),
        (FrameStep::CastResource { focused, cursor }, Event::Completed(result)) => (
            world,
            FrameProgress::Continue(
                or_unlock(
                    result,
                    if focused {
                        FrameStep::CopySource { cursor }
                    } else {
                        FrameStep::CopyBlank
                    },
                    FrameError::WindowsError(result->Err_0),
                ),
            ),
        ),
        (FrameStep::CopySource { cursor }, Event::Done) => (
            world,
            FrameProgress::Continue(after_source_copy(cursor)),
        ),
        (FrameStep::DescribeTarget { cursor }, Event::Size { width, height }) => (
            world,
            FrameProgress::Continue(after_describe(cursor, width, height)),
        ),
        (FrameStep::CreateCursor { texture: _, region }, Event::Completed(result)) => (
            world,
            FrameProgress::Continue(after_cursor_texture(result, region)),
        ),
        (FrameStep::CopyCursor { .. }, Event::Done) => (
            world,
            FrameProgress::Continue(FrameStep::CopyPooled),
        ),
        (FrameStep::CopyPooled, Event::Done) => (
            world,
            FrameProgress::Continue(FrameStep::ReleaseFrame),
        ),
        (FrameStep::CopyBlank, Event::Done) => (
            world,
            FrameProgress::Continue(FrameStep::ReleaseFrame),
        ),
        (FrameStep::ReleaseFrame, Event::Completed(result)) => (
            world,
            FrameProgress::Continue(
                or_unlock(
                    result,
                    FrameStep::ReleaseTexture,
                    FrameError::WindowsError(result->Err_0),
                ),
            ),
        ),
        (FrameStep::ReleaseTexture, Event::Done) => (
            world,
            FrameProgress::Continue(FrameStep::UnlockContext { failure: None }),
        ),
        (FrameStep::UnlockContext { failure }, Event::Done) => (
            world,
            match failure {
                Some(error) => FrameProgress::Finished(Err(error)),
                None => FrameProgress::Continue(send_step(world.pacing)),
            },
        ),
        (FrameStep::Send { duplicate, stage }, Event::Completed(result)) => {
            let (pacing, progress) = after_send(duplicate, stage, result, world.pacing);
            (FrameWorld { pacing, ..world }, progress)
        },
        (FrameStep::ReadClock, Event::Time(now)) => (
            FrameWorld { pacing: world.pacing.after_clock(now as int), ..world },
            after_clock(world.pacing, now),
        ),
        (FrameStep::Pause { .. }, Event::Done) => (world, FrameProgress::Finished(Ok(()))),
        _ => (world, FrameProgress::Continue(step)),
    }
}

/// Whether the arithmetic that an answer calls for stays within its limits.
pub open spec fn frame_within_limits(step: FrameStep, event: Event, pacing: PacingModel) -> bool {
    match (step, event) {
        (FrameStep::DescribeTarget { cursor }, Event::Size { .. }) => cursor.fits(),
        (
            FrameStep::Send { duplicate, stage: SendStage::SendSample },
            Event::Completed(Ok(_)),
        ) => pacing.can_advance() && (duplicate ==> pacing.can_count_duplicate()),
        (FrameStep::ReadClock, Event::Time(now)) => pacing.can_settle(now as int),
        _ => true,
    }
}

/// What holds of every step that a frame comes to: a duplicate is sent only while one is owed,
/// and only the texture pool and system calls fail while the context is held.
pub open spec fn frame_step_wf(step: FrameStep, pacing: PacingModel) -> bool {
    match step {
        FrameStep::Send { duplicate: true, .. } => pacing.owes_duplicate(),
        FrameStep::UnlockContext { failure: Some(error) } => error is TexturePoolError
            || error is WindowsError,
        _ => true,
    }
}

/// Names the outside work that a step asks for.
pub fn action_of(step: &FrameStep, frame_count: u64) -> (action: Action)
    ensures
        action == frame_action(*step, frame_count),
{
    match *step {
        FrameStep::QueryForeground => Action::QueryForeground,
        FrameStep::ReportFocus { focused } => Action::ReportFocus { focused },
        FrameStep::AcquireFrame { .. } => Action::AcquireFrame {
            timeout_millis: ACQUIRE_TIMEOUT_MILLIS,
        },
        FrameStep::ReadCursor { .. } => Action::ReadCursor,
        FrameStep::LockContext { .. } => Action::LockContext,
        FrameStep::AcquireTexture { .. } => Action::AcquireTexture,
        FrameStep::CastResource { .. } => Action::CastResource,
        FrameStep::CopySource { .. } => Action::CopySourceToPooled,
        FrameStep::DescribeTarget { .. } => Action::DescribePooled,
        FrameStep::CreateCursor { texture, .. } => Action::CreateCursorTexture(texture),
        FrameStep::CopyCursor { region } => Action::CopyCursor(region),
        FrameStep::CopyPooled => Action::CopyPooledToStaging,
        FrameStep::CopyBlank => Action::CopyBlankToStaging,
        FrameStep::ReleaseFrame => Action::ReleaseFrame,
        FrameStep::ReleaseTexture => Action::ReleaseTexture,
        FrameStep::UnlockContext { .. } => Action::UnlockContext,
        FrameStep::Send { stage, .. } => match stage {
            SendStage::AcquireSample => Action::AcquireSample,
            SendStage::SetSampleTime => Action::SetSampleTime { frame_count },
            SendStage::SendSample => Action::SendSample,
        },
        FrameStep::ReadClock => Action::ReadClock,
        FrameStep::Pause { nanos } => Action::Sleep { nanos },
    }
}

/// Tells whether the arithmetic that an answer calls for stays within its limits.
pub fn within_limits(step: &FrameStep, event: &Event, pacing: &Pacing) -> (b: bool)
    ensures
        b == frame_within_limits(*step, *event, pacing@),
{
    match (*step, *event) {
        (FrameStep::DescribeTarget { cursor }, Event::Size { .. }) => cursor.can_place(),
        (FrameStep::Send { duplicate, stage: SendStage::SendSample }, Event::Completed(Ok(_))) => {
            pacing.can_advance() && (!duplicate || pacing.can_count_duplicate())
        },
        (FrameStep::ReadClock, Event::Time(now)) => pacing.can_settle(now),
        _ => true,
    }
}

/// The step that sending begins with.
fn begin_sending(pacing: &Pacing) -> (step: FrameStep)
    ensures
        step == send_step(pacing@),
{
    FrameStep::Send { duplicate: pacing.owes_duplicate(), stage: SendStage::AcquireSample }
}

/// Gives the context up after a failure.
fn fail(failure: FrameError) -> (progress: FrameProgress)
    ensures
        progress == FrameProgress::Continue(FrameStep::UnlockContext { failure: Some(failure) }),
{
    FrameProgress::Continue(FrameStep::UnlockContext { failure: Some(failure) })
}

/// Moves a frame on by the answer to its pending step.
///
/// The window's content is composed only while the window has the focus; otherwise a blank
/// image takes its place. A frame that is late by whole frames is sent once more for each of
/// them. Every failure ends the frame: in acquiring it, in the texture pool, in the system
/// calls round it, or in sending. Only the cursor's failures are passed over.
pub fn process_frame(
    step: FrameStep,
    event: Event,
    window_tracker: &mut WindowTracker,
    pacing: &mut Pacing,
    last_focus: &mut Option<bool>,
    capture_cursor: bool,
) -> (progress: FrameProgress)
    requires
        frame_step_wf(step, old(pacing)@),
        frame_within_limits(step, event, old(pacing)@),
    ensures
        (
            FrameWorld {
                tracker: final(window_tracker)@,
                pacing: final(pacing)@,
                last_focus: *final(last_focus),
            },
            progress,
        ) == frame_next(
            step,
            event,
            FrameWorld {
                tracker: old(window_tracker)@,
                pacing: old(pacing)@,
                last_focus: *old(last_focus),
            },
            capture_cursor,
        ),
        progress matches FrameProgress::Continue(next) ==> frame_step_wf(next, final(pacing)@),
{
    match (step, event) {
        (FrameStep::QueryForeground, Event::Foreground(foreground)) => {
            let focused: bool = window_tracker.is_focused(foreground);
            if note_focus(last_focus, focused) {
                FrameProgress::Continue(FrameStep::ReportFocus { focused })
            } else {
                FrameProgress::Continue(FrameStep::AcquireFrame { focused })
            }
        },
        (FrameStep::ReportFocus { focused }, Event::Done) => FrameProgress::Continue(
            FrameStep::AcquireFrame { focused },
        ),
        (FrameStep::AcquireFrame { focused }, Event::Acquired(Ok(has_image))) => {
            if capture_cursor {
                FrameProgress::Continue(FrameStep::ReadCursor { focused, has_image })
            } else {
                FrameProgress::Continue(
                    FrameStep::LockContext { focused, has_image, cursor: None },
                )
            }
        },
        (FrameStep::AcquireFrame { .. }, Event::Acquired(Err(e))) => FrameProgress::Finished(
            Err(FrameError::from(e)),
        ),
        (FrameStep::ReadCursor { focused, has_image }, Event::Cursor(read)) => {
            let cursor = match read {
                Ok(info) => Some(info),
                Err(_) => None,
            };
            FrameProgress::Continue(FrameStep::LockContext { focused, has_image, cursor })
        },
        (FrameStep::LockContext { focused, has_image, cursor }, Event::Done) => {
            if has_image {
                FrameProgress::Continue(FrameStep::AcquireTexture { focused, cursor })
            } else {
                FrameProgress::Continue(FrameStep::UnlockContext { failure: None })
            }
        },
        (FrameStep::AcquireTexture { focused, cursor }, Event::Completed(result)) => match result {
            Ok(_) => FrameProgress::Continue(FrameStep::CastResource { focused, cursor }),
            Err(_) => fail(FrameError::TexturePoolError),
        },
        (FrameStep::CastResource { focused, cursor }, Event::Completed(result)) => match result {
            Ok(_) => if focused {
                FrameProgress::Continue(FrameStep::CopySource { cursor })
            } else {
                FrameProgress::Continue(FrameStep::CopyBlank)
            },
            Err(e) => fail(FrameError::from(e)),
        },
        (FrameStep::CopySource { cursor }, Event::Done) => {
            if let Some(info) = cursor {
                if info.is_drawable() {
                    return FrameProgress::Continue(FrameStep::DescribeTarget { cursor: info });
                }
            }
            FrameProgress::Continue(FrameStep::CopyPooled)
        },
        (FrameStep::DescribeTarget { cursor }, Event::Size { width, height }) => {
            match draw_cursor(&cursor, width, height) {
                CursorPlan::Skip => FrameProgress::Continue(FrameStep::CopyPooled),
                CursorPlan::Draw { texture, region } => FrameProgress::Continue(
                    FrameStep::CreateCursor { texture, region },
                ),
            }
        },
        (FrameStep::CreateCursor { texture: _, region }, Event::Completed(result)) => {
            match (result, region) {
                (Ok(_), Some(region)) => FrameProgress::Continue(FrameStep::CopyCursor { region }),
                _ => FrameProgress::Continue(FrameStep::CopyPooled),
            }
        },
        (FrameStep::CopyCursor { .. }, Event::Done) => FrameProgress::Continue(
            FrameStep::CopyPooled,
        ),
        (FrameStep::CopyPooled, Event::Done) | (FrameStep::CopyBlank, Event::Done) => {
            FrameProgress::Continue(FrameStep::ReleaseFrame)
        },
        (FrameStep::ReleaseFrame, Event::Completed(result)) => match result {
            Ok(_) => FrameProgress::Continue(FrameStep::ReleaseTexture),
            Err(e) => fail(FrameError::from(e)),
        },
        (FrameStep::ReleaseTexture, Event::Done) => FrameProgress::Continue(
            FrameStep::UnlockContext { failure: None },
        ),
        (FrameStep::UnlockContext { failure }, Event::Done) => match failure {
            Some(error) => FrameProgress::Finished(Err(error)),
            None => FrameProgress::Continue(begin_sending(pacing)),
        },
        (FrameStep::Send { duplicate, stage }, Event::Completed(result)) => {
            match send_frame(stage, result) {
                SendProgress::Failed(_) => FrameProgress::Finished(Err(FrameError::ChannelClosed)),
                SendProgress::Continue(stage) => FrameProgress::Continue(
                    FrameStep::Send { duplicate, stage },
                ),
                SendProgress::Sent => {
                    if duplicate {
                        pacing.record_duplicate();
                        FrameProgress::Continue(begin_sending(pacing))
                    } else {
                        pacing.record_frame();
                        FrameProgress::Continue(FrameStep::ReadClock)
                    }
                },
            }
        },
        (FrameStep::ReadClock, Event::Time(now)) => {
            match handle_frame_timing(now, pacing.next_frame_time, &mut pacing.accumulated_delay) {
                None => FrameProgress::Finished(Ok(())),
                Some(nanos) => FrameProgress::Continue(FrameStep::Pause { nanos }),
            }
        },
        (FrameStep::Pause { .. }, Event::Done) => FrameProgress::Finished(Ok(())),
        _ => FrameProgress::Continue(step),
    }
}

} // verus!
