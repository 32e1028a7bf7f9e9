//! What each answer leads to, whatever else the run has been through.

use vstd::prelude::*;

use crate::capture::{CaptureModel, Phase, SetupStep};
use crate::cursor::{CursorInfo, CursorShape};
use crate::error::{FrameError, WindowsError};
use crate::frame::FrameStep;
use crate::platform::{ACCESS_LOST, WAIT_TIMEOUT};
use crate::protocol::{answers, Action, Event, TexturePoolPlan};
use crate::send::SendStage;
use crate::timing::PacingModel;
use crate::window::TrackerModel;

verus! {

/// Where a run goes when there is a window to follow: into a frame when the duplication interface
/// is usable, else to setting it up again.
pub open spec fn turn_goes_on(phase: Phase, duplication_ready: bool) -> bool {
    if duplication_ready {
        phase == Phase::Frame(FrameStep::QueryForeground)
    } else {
        phase == Phase::Reconnect
    }
}

/// Each part of setting up is asked for with the run's own size and rate.
pub proof fn law_setup_actions(s: CaptureModel)
    ensures
        s.phase == Phase::Setup(SetupStep::StagingTexture) ==> s.action() == (
        Action::CreateStagingTexture { width: s.input_width, height: s.input_height }),
        s.phase == Phase::Setup(SetupStep::BlankTexture) ==> s.action() == (
        Action::CreateBlankTexture { width: s.input_width, height: s.input_height }),
        s.phase == Phase::Setup(SetupStep::TexturePool) ==> s.action()
            == Action::CreateTexturePool(
            TexturePoolPlan {
                capacity: 10,
                width: s.input_width,
                height: s.input_height,
                format: 87,
                usage: 0,
                bind_flags: 8,
                cpu_access_flags: 0,
                misc_flags: 0,
            },
        ),
        s.phase == Phase::Setup(SetupStep::SamplePool) ==> s.action() == (
        Action::CreateSamplePool { fps_num: s.fps_num, capacity: 10 }),
        s.phase == Phase::Setup(SetupStep::SignalReady) ==> s.action() == Action::SignalReady,
        s.phase == Phase::Setup(SetupStep::Duplication) ==> s.action() == Action::SetupDuplication,
{
}

/// What is asked for between frames.
pub proof fn law_turn_actions(s: CaptureModel)
    ensures
        s.phase is Poll ==> s.action() == Action::PollRecording,
        s.phase is CheckClock ==> s.action() == Action::ReadClock,
        s.phase is Probe ==> s.action() == (Action::CheckWindow { hwnd: s.tracker.hwnd }),
        s.phase is Search ==> s.action() == (Action::FindWindow {
            exact: s.tracker.use_exact_match,
        }),
        s.phase is SearchAgain ==> s.action() == (Action::FindWindow {
            exact: s.tracker.use_exact_match,
        }),
        s.phase is Retrack ==> s.action() == Action::ReadClock,
        s.phase is SearchPause ==> s.action() == (Action::Sleep { nanos: 1000000 }),
        s.phase is Reconnect ==> s.action() == Action::SetupDuplication,
        s.phase is ReconnectPause ==> s.action() == (Action::Sleep { nanos: 100000000 }),
        s.phase is Finished ==> s.action() == Action::Finish(s.phase->Finished_0),
{
}

/// What is asked for within a frame.
pub proof fn law_frame_actions(s: CaptureModel, step: FrameStep)
    requires
        s.phase == Phase::Frame(step),
    ensures
        step is QueryForeground ==> s.action() == Action::QueryForeground,
        step matches FrameStep::ReportFocus { focused } ==> s.action() == (Action::ReportFocus {
            focused,
        }),
        step is AcquireFrame ==> s.action() == (Action::AcquireFrame { timeout_millis: 16 }),
        step is ReadCursor ==> s.action() == Action::ReadCursor,
        step is LockContext ==> s.action() == Action::LockContext,
        step is AcquireTexture ==> s.action() == Action::AcquireTexture,
        step is CastResource ==> s.action() == Action::CastResource,
        step is CopySource ==> s.action() == Action::CopySourceToPooled,
        step is DescribeTarget ==> s.action() == Action::DescribePooled,
        step matches FrameStep::CreateCursor { texture, .. } ==> s.action()
            == Action::CreateCursorTexture(texture),
        step matches FrameStep::CopyCursor { region } ==> s.action() == Action::CopyCursor(region),
        step is CopyPooled ==> s.action() == Action::CopyPooledToStaging,
        step is CopyBlank ==> s.action() == Action::CopyBlankToStaging,
        step is ReleaseFrame ==> s.action() == Action::ReleaseFrame,
        step is ReleaseTexture ==> s.action() == Action::ReleaseTexture,
        step is UnlockContext ==> s.action() == Action::UnlockContext,
        step matches FrameStep::Send { stage, .. } ==> s.action() == (match stage {
            SendStage::AcquireSample => Action::AcquireSample,
            SendStage::SetSampleTime => Action::SetSampleTime { frame_count: s.frame_count },
            SendStage::SendSample => Action::SendSample,
        }),
        step is ReadClock ==> s.action() == Action::ReadClock,
        step matches FrameStep::Pause { nanos } ==> s.action() == (Action::Sleep { nanos }),
{
}

/// A resource that was created is followed by the next one; one that was not ends the run with
/// its error. Nothing else changes.
#[verifier::spinoff_prover]
pub proof fn law_creating_a_resource(s: CaptureModel, e: WindowsError)
    requires
        s.action() is CreateStagingTexture || s.action() is CreateBlankTexture
            || s.action() is CreateTexturePool,
    ensures
        s.next(Event::Completed(Err(e))) == (CaptureModel {
            phase: Phase::Finished(Err(e)),
            ..s
        }),
        s.next(Event::Completed(Ok(()))) == (CaptureModel {
            phase: Phase::Setup(
                if s.action() is CreateStagingTexture {
                    SetupStep::BlankTexture
                } else if s.action() is CreateBlankTexture {
                    SetupStep::TexturePool
                } else {
                    SetupStep::SamplePool
                },
            ),
            ..s
        }),
{
}

/// The pool of samples is followed by the signal, and the signal by the duplication interface.
#[verifier::spinoff_prover]
pub proof fn law_signalling(s: CaptureModel)
    ensures
        s.action() is CreateSamplePool ==> s.next(Event::Done) == (CaptureModel {
            phase: Phase::Setup(SetupStep::SignalReady),
            ..s
        }),
        s.action() is SignalReady ==> s.next(Event::Done) == (CaptureModel {
            phase: Phase::Setup(SetupStep::Duplication),
            ..s
        }),
{
}

/// Setting up the duplication interface for the first time leads to the loop in any case; it is
/// usable when that succeeded.
#[verifier::spinoff_prover]
pub proof fn law_first_connection(s: CaptureModel, e: WindowsError)
    requires
        s.phase == Phase::Setup(SetupStep::Duplication),
    ensures
        s.next(Event::Completed(Ok(()))) == (CaptureModel {
            duplication_ready: true,
            phase: Phase::Poll,
            ..s
        }),
        s.next(Event::Completed(Err(e))) == (CaptureModel {
            duplication_ready: false,
            phase: Phase::Poll,
            ..s
        }),
{
}

/// The flag decides at every turn: a run that is told to stop is over, without an error, however
/// far it has come; one that is told to go on is not.
#[verifier::spinoff_prover]
pub proof fn law_flag_decides(s: CaptureModel)
    requires
        s.action() == Action::PollRecording,
    ensures
        s.accepts(Event::Flag(false)),
        s.accepts(Event::Flag(true)),
        s.next(Event::Flag(false)).action() == Action::Finish(Ok(())),
        s.next(Event::Flag(false)) == (CaptureModel { phase: Phase::Finished(Ok(())), ..s }),
        !(s.next(Event::Flag(true)).phase is Finished),
        s.next(Event::Flag(true)) == (CaptureModel { phase: Phase::CheckClock, ..s }),
{
}

/// A window that is due is asked about, and the time of that is noted; one that is not due is
/// taken to be there, and nothing is noted.
#[verifier::spinoff_prover]
pub proof fn law_window_check(s: CaptureModel, now: u128)
    requires
        s.phase is CheckClock,
        s.tracker.check_interval > 0,
    ensures
        now >= s.tracker.last_check + s.tracker.check_interval ==> s.next(Event::Time(now)) == (
        CaptureModel {
            tracker: TrackerModel { last_check: now, ..s.tracker },
            phase: Phase::Probe,
            ..s
        }),
        now < s.tracker.last_check + s.tracker.check_interval ==> {
            let t = s.next(Event::Time(now));
            &&& t == (CaptureModel { phase: t.phase, ..s })
            &&& turn_goes_on(t.phase, s.duplication_ready)
        },
{
}

/// A valid handle lets the turn go on; an invalid one starts a search.
#[verifier::spinoff_prover]
pub proof fn law_window_asked_about(s: CaptureModel)
    requires
        s.phase is Probe,
    ensures
        ({
            let t = s.next(Event::Flag(true));
            &&& t == (CaptureModel { phase: t.phase, ..s })
            &&& turn_goes_on(t.phase, s.duplication_ready)
        }),
        s.next(Event::Flag(false)) == (CaptureModel { phase: Phase::Search, ..s }),
{
}

/// A window that the first search finds takes the place of the lost one, and the turn goes on. One
/// that is not found is searched for again.
#[verifier::spinoff_prover]
pub proof fn law_first_search(s: CaptureModel, hwnd: isize)
    requires
        s.phase is Search,
    ensures
        ({
            let t = s.next(Event::Found(Some(hwnd)));
            &&& t == (CaptureModel {
                tracker: TrackerModel { hwnd, ..s.tracker },
                phase: t.phase,
                ..s
            })
            &&& turn_goes_on(t.phase, s.duplication_ready)
        }),
        s.next(Event::Found(None)) == (CaptureModel { phase: Phase::SearchAgain, ..s }),
{
}

/// A window that the second search finds is followed afresh from the clock that is read next. One
/// that is not found costs the turn and a pause of a millisecond.
#[verifier::spinoff_prover]
pub proof fn law_second_search(s: CaptureModel, hwnd: isize, now: u128)
    requires
        s.phase is SearchAgain,
    ensures
        ({
            let found = s.next(Event::Found(Some(hwnd)));
            let t = found.next(Event::Time(now));
            &&& found.action() == Action::ReadClock
            &&& found == (CaptureModel { phase: found.phase, ..s })
            &&& t == (CaptureModel {
                tracker: TrackerModel {
                    hwnd,
                    process_name: s.tracker.process_name,
                    last_check: now,
                    check_interval: 2000000000,
                    ever_focused: false,
                    use_exact_match: s.tracker.use_exact_match,
                },
                phase: t.phase,
                ..s
            })
            &&& turn_goes_on(t.phase, s.duplication_ready)
        }),
        s.next(Event::Found(None)).action() == (Action::Sleep { nanos: 1000000 }),
        s.next(Event::Found(None)) == (CaptureModel { phase: Phase::SearchPause, ..s }),
{
    assert(s.next(Event::Found(Some(hwnd))) == (CaptureModel {
        phase: Phase::Retrack { hwnd },
        ..s
    }));
}

/// Setting up the duplication interface again leads into a frame when it succeeded, and else to a
/// pause of a hundred milliseconds.
#[verifier::spinoff_prover]
pub proof fn law_reconnecting(s: CaptureModel, e: WindowsError)
    requires
        s.phase is Reconnect,
    ensures
        s.next(Event::Completed(Ok(()))) == (CaptureModel {
            duplication_ready: true,
            phase: Phase::Frame(FrameStep::QueryForeground),
            ..s
        }),
        s.next(Event::Completed(Err(e))).action() == (Action::Sleep { nanos: 100000000 }),
        s.next(Event::Completed(Err(e))) == (CaptureModel { phase: Phase::ReconnectPause, ..s }),
{
}

/// Both pauses between frames are followed by the next turn.
#[verifier::spinoff_prover]
pub proof fn law_pauses_end(s: CaptureModel)
    requires
        s.phase is SearchPause || s.phase is ReconnectPause,
    ensures
        s.next(Event::Done) == (CaptureModel { phase: Phase::Poll, ..s }),
{
}

/// Reading the foreground window decides whether the frame has the focus. A change of the focus is
/// reported first.
#[verifier::spinoff_prover]
pub proof fn law_focus_is_read(s: CaptureModel, foreground: isize)
    requires
        s.action() == Action::QueryForeground,
    ensures
        ({
            let focused = foreground == s.tracker.hwnd;
            s.next(Event::Foreground(foreground)) == (CaptureModel {
                tracker: TrackerModel {
                    ever_focused: s.tracker.ever_focused || focused,
                    ..s.tracker
                },
                last_focus: Some(focused),
                phase: Phase::Frame(
                    if s.last_focus == Some(focused) {
                        FrameStep::AcquireFrame { focused }
                    } else {
                        FrameStep::ReportFocus { focused }
                    },
                ),
                ..s
            })
        }),
{
}

/// A report is followed by acquiring the frame, with the focus that was read.
#[verifier::spinoff_prover]
pub proof fn law_focus_is_reported(s: CaptureModel, focused: bool)
    requires
        s.phase == Phase::Frame(FrameStep::ReportFocus { focused }),
    ensures
        s.next(Event::Done) == (CaptureModel {
            phase: Phase::Frame(FrameStep::AcquireFrame { focused }),
            ..s
        }),
{
}

/// A frame that was acquired has its cursor read exactly when cursors are captured, and then the
/// context is locked.
#[verifier::spinoff_prover]
pub proof fn law_frame_is_acquired(s: CaptureModel, focused: bool, has_image: bool)
    requires
        s.phase == Phase::Frame(FrameStep::AcquireFrame { focused }),
    ensures
        s.capture_cursor ==> s.next(Event::Acquired(Ok(has_image))) == (CaptureModel {
            phase: Phase::Frame(FrameStep::ReadCursor { focused, has_image }),
            ..s
        }),
        !s.capture_cursor ==> s.next(Event::Acquired(Ok(has_image))) == (CaptureModel {
            phase: Phase::Frame(FrameStep::LockContext { focused, has_image, cursor: None }),
            ..s
        }),
{
}

/// A system error in acquiring a frame costs the frame when it is a timeout, the duplication
/// interface too when access was lost, and else the run.
#[verifier::spinoff_prover]
pub proof fn law_frame_is_not_acquired(s: CaptureModel, e: WindowsError)
    requires
        s.action() is AcquireFrame,
    ensures
        s.next(Event::Acquired(Err(e))) == (if e.code == WAIT_TIMEOUT {
            CaptureModel { phase: Phase::Poll, ..s }
        } else if e.code == ACCESS_LOST {
            CaptureModel { duplication_ready: false, phase: Phase::Poll, ..s }
        } else {
            CaptureModel { phase: Phase::Finished(Err(e)), ..s }
        }),
{
}

/// A cursor that was read is kept as it is; one that could not be read is done without.
#[verifier::spinoff_prover]
pub proof fn law_cursor_is_read(
    s: CaptureModel,
    focused: bool,
    has_image: bool,
    info: CursorInfo,
    e: WindowsError,
)
    requires
        s.phase == Phase::Frame(FrameStep::ReadCursor { focused, has_image }),
    ensures
        s.next(Event::Cursor(Ok(info))) == (CaptureModel {
            phase: Phase::Frame(
                FrameStep::LockContext { focused, has_image, cursor: Some(info) },
            ),
            ..s
        }),
        s.next(Event::Cursor(Err(e))) == (CaptureModel {
            phase: Phase::Frame(FrameStep::LockContext { focused, has_image, cursor: None }),
            ..s
        }),
{
}

/// Under the lock a frame with an image gets a texture, and one without an image gives the lock up
/// to be sent.
#[verifier::spinoff_prover]
pub proof fn law_context_is_locked(s: CaptureModel, focused: bool, cursor: Option<CursorInfo>)
    ensures
        s.phase == Phase::Frame(FrameStep::LockContext { focused, has_image: true, cursor })
            ==> s.next(Event::Done) == (CaptureModel {
            phase: Phase::Frame(FrameStep::AcquireTexture { focused, cursor }),
            ..s
        }),
        s.phase == Phase::Frame(FrameStep::LockContext { focused, has_image: false, cursor })
            ==> s.next(Event::Done) == (CaptureModel {
            phase: Phase::Frame(FrameStep::UnlockContext { failure: None }),
            ..s
        }),
{
}

/// With a texture at hand the image is viewed as one. Without one the frame fails for want of it.
#[verifier::spinoff_prover]
pub proof fn law_texture_is_acquired(
    s: CaptureModel,
    focused: bool,
    cursor: Option<CursorInfo>,
    e: WindowsError,
)
    requires
        s.phase == Phase::Frame(FrameStep::AcquireTexture { focused, cursor }),
    ensures
        s.next(Event::Completed(Ok(()))) == (CaptureModel {
            phase: Phase::Frame(FrameStep::CastResource { focused, cursor }),
            ..s
        }),
        s.next(Event::Completed(Err(e))) == (CaptureModel {
            phase: Phase::Frame(
                FrameStep::UnlockContext { failure: Some(FrameError::TexturePoolError) },
            ),
            ..s
        }),
{
}

/// With the focus the image is copied, whether cursors are captured or not; without the focus the
/// blank image is.
#[verifier::spinoff_prover]
pub proof fn law_focus_decides_what_is_copied(s: CaptureModel, cursor: Option<CursorInfo>)
    ensures
        s.phase == Phase::Frame(FrameStep::CastResource { focused: true, cursor }) ==> {
            &&& s.next(Event::Completed(Ok(()))).action() == Action::CopySourceToPooled
            &&& s.next(Event::Completed(Ok(()))) == (CaptureModel {
                phase: Phase::Frame(FrameStep::CopySource { cursor }),
                ..s
            })
        },
        s.phase == Phase::Frame(FrameStep::CastResource { focused: false, cursor }) ==> {
            &&& s.next(Event::Completed(Ok(()))).action() == Action::CopyBlankToStaging
            &&& s.next(Event::Completed(Ok(()))) == (CaptureModel {
                phase: Phase::Frame(FrameStep::CopyBlank),
                ..s
            })
        },
{
}

/// On the copied image a cursor is drawn exactly when there is one that is visible and has a
/// shape.
#[verifier::spinoff_prover]
pub proof fn law_image_is_copied(s: CaptureModel, cursor: Option<CursorInfo>)
    requires
        s.phase == Phase::Frame(FrameStep::CopySource { cursor }),
    ensures
        cursor is Some && cursor->Some_0.visible && cursor->Some_0.shape is Some ==> s.next(
            Event::Done,
        ) == (CaptureModel {
            phase: Phase::Frame(FrameStep::DescribeTarget { cursor: cursor->Some_0 }),
            ..s
        }),
        cursor is None || !cursor->Some_0.visible || cursor->Some_0.shape is None ==> s.next(
            Event::Done,
        ) == (CaptureModel { phase: Phase::Frame(FrameStep::CopyPooled), ..s }),
{
}

/// The cursor's texture is followed by the copy where a part of the cursor lies on the frame.
/// Where nothing does, and where the texture could not be created, the frame goes on without.
#[verifier::spinoff_prover]
pub proof fn law_cursor_texture_is_created(s: CaptureModel, e: WindowsError)
    requires
        s.phase is Frame,
        s.phase->Frame_0 is CreateCursor,
    ensures
        ({
            let region = s.phase->Frame_0->CreateCursor_region;
            &&& region is Some ==> s.next(Event::Completed(Ok(()))) == (CaptureModel {
                phase: Phase::Frame(FrameStep::CopyCursor { region: region->Some_0 }),
                ..s
            })
            &&& region is None ==> s.next(Event::Completed(Ok(()))) == (CaptureModel {
                phase: Phase::Frame(FrameStep::CopyPooled),
                ..s
            })
        }),
        s.next(Event::Completed(Err(e))) == (CaptureModel {
            phase: Phase::Frame(FrameStep::CopyPooled),
            ..s
        }),
{
}

/// The composed image is put in place after the cursor, then the frame is released, then the
/// texture, then the context.
#[verifier::spinoff_prover]
pub proof fn law_frame_is_wound_up(s: CaptureModel)
    ensures
        s.action() is CopyCursor ==> s.next(Event::Done) == (CaptureModel {
            phase: Phase::Frame(FrameStep::CopyPooled),
            ..s
        }),
        s.action() is CopyPooledToStaging || s.action() is CopyBlankToStaging ==> s.next(
            Event::Done,
        ) == (CaptureModel { phase: Phase::Frame(FrameStep::ReleaseFrame), ..s }),
        s.action() is ReleaseFrame ==> s.next(Event::Completed(Ok(()))) == (CaptureModel {
            phase: Phase::Frame(FrameStep::ReleaseTexture),
            ..s
        }),
        s.action() is ReleaseTexture ==> s.next(Event::Done) == (CaptureModel {
            phase: Phase::Frame(FrameStep::UnlockContext { failure: None }),
            ..s
        }),
{
}

/// What failed under the lock takes effect once the context is given up. An exhausted pool costs
/// the frame. A system error has the effect that it has in acquiring a frame.
#[verifier::spinoff_prover]
pub proof fn law_failure_takes_effect(s: CaptureModel, e: WindowsError)
    ensures
        s.phase == Phase::Frame(
            FrameStep::UnlockContext { failure: Some(FrameError::TexturePoolError) },
        ) ==> s.next(Event::Done) == (CaptureModel { phase: Phase::Poll, ..s }),
        s.phase == Phase::Frame(
            FrameStep::UnlockContext { failure: Some(FrameError::WindowsError(e)) },
        ) ==> s.next(Event::Done) == (if e.code == WAIT_TIMEOUT {
            CaptureModel { phase: Phase::Poll, ..s }
        } else if e.code == ACCESS_LOST {
            CaptureModel { duplication_ready: false, phase: Phase::Poll, ..s }
        } else {
            CaptureModel { phase: Phase::Finished(Err(e)), ..s }
        }),
{
}

/// A failed cast and a failed release are kept, with their error, until the context is given up.
#[verifier::spinoff_prover]
pub proof fn law_failure_is_kept(s: CaptureModel, e: WindowsError)
    requires
        s.action() == Action::CastResource || s.action() == Action::ReleaseFrame,
    ensures
        s.next(Event::Completed(Err(e))) == (CaptureModel {
            phase: Phase::Frame(
                FrameStep::UnlockContext { failure: Some(FrameError::WindowsError(e)) },
            ),
            ..s
        }),
{
}

/// A sample that cannot be had, stamped or sent ends the run without an error.
#[verifier::spinoff_prover]
pub proof fn law_sample_is_not_sent(s: CaptureModel, e: WindowsError)
    requires
        s.action() is AcquireSample || s.action() is SetSampleTime || s.action() is SendSample,
    ensures
        s.next(Event::Completed(Err(e))).action() == Action::Finish(Ok(())),
        s.next(Event::Completed(Err(e))) == (CaptureModel {
            phase: Phase::Finished(Ok(())),
            ..s
        }),
{
}

/// A frame without a failure is sent once the context is given up: first as a duplicate, exactly
/// when the run is a whole frame behind.
#[verifier::spinoff_prover]
pub proof fn law_sending_begins(s: CaptureModel)
    requires
        s.phase == Phase::Frame(FrameStep::UnlockContext { failure: None }),
    ensures
        s.next(Event::Done) == (CaptureModel {
            phase: Phase::Frame(
                FrameStep::Send {
                    duplicate: s.pacing.accumulated_delay >= s.pacing.frame_duration,
                    stage: SendStage::AcquireSample,
                },
            ),
            ..s
        }),
{
}

/// A sample is acquired, then stamped, then sent, and nothing else changes before it is sent.
#[verifier::spinoff_prover]
pub proof fn law_sample_is_prepared(s: CaptureModel, duplicate: bool)
    ensures
        s.phase == Phase::Frame(FrameStep::Send { duplicate, stage: SendStage::AcquireSample })
            ==> s.next(Event::Completed(Ok(()))) == (CaptureModel {
            phase: Phase::Frame(FrameStep::Send { duplicate, stage: SendStage::SetSampleTime }),
            ..s
        }),
        s.phase == Phase::Frame(FrameStep::Send { duplicate, stage: SendStage::SetSampleTime })
            ==> s.next(Event::Completed(Ok(()))) == (CaptureModel {
            phase: Phase::Frame(FrameStep::Send { duplicate, stage: SendStage::SendSample }),
            ..s
        }),
{
}

/// A duplicate that was sent makes up for one frame of delay, and sending begins anew: with
/// another duplicate exactly while what is left of the delay is a whole frame or more. The frame
/// itself leaves the delay alone and is followed by the clock. Either moves the due time on by a
/// frame.
#[verifier::spinoff_prover]
pub proof fn law_sample_is_sent(s: CaptureModel)
    ensures
        s.phase == Phase::Frame(
            FrameStep::Send { duplicate: true, stage: SendStage::SendSample },
        ) ==> s.next(Event::Completed(Ok(()))) == (CaptureModel {
            pacing: PacingModel {
                next_frame_time: s.pacing.next_frame_time + s.pacing.frame_duration,
                frame_duration: s.pacing.frame_duration,
                accumulated_delay: s.pacing.accumulated_delay - s.pacing.frame_duration,
                num_duped: s.pacing.num_duped + 1,
            },
            phase: Phase::Frame(
                FrameStep::Send {
                    duplicate: s.pacing.accumulated_delay - s.pacing.frame_duration
                        >= s.pacing.frame_duration,
                    stage: SendStage::AcquireSample,
                },
            ),
            ..s
        }),
        s.phase == Phase::Frame(
            FrameStep::Send { duplicate: false, stage: SendStage::SendSample },
        ) ==> s.next(Event::Completed(Ok(()))) == (CaptureModel {
            pacing: PacingModel {
                next_frame_time: s.pacing.next_frame_time + s.pacing.frame_duration,
                frame_duration: s.pacing.frame_duration,
                accumulated_delay: s.pacing.accumulated_delay,
                num_duped: s.pacing.num_duped,
            },
            phase: Phase::Frame(FrameStep::ReadClock),
            ..s
        }),
{
}

/// The end of a frame. One that is early, or on time, is followed by a pause that lasts until the
/// next is due, and is counted after it. One that is late is counted at once, and its lateness is
/// added to the delay.
#[verifier::spinoff_prover]
pub proof fn law_frame_is_timed(s: CaptureModel, now: u128)
    requires
        s.phase == Phase::Frame(FrameStep::ReadClock),
        s.frame_count < u64::MAX,
        s.pacing.next_frame_time <= u128::MAX,
    ensures
        now <= s.pacing.next_frame_time ==> {
            let t = s.next(Event::Time(now));
            &&& t.action() matches Action::Sleep { nanos } && now + nanos
                == s.pacing.next_frame_time
            &&& t == (CaptureModel { phase: t.phase, ..s })
            &&& t.next(Event::Done) == (CaptureModel {
                frame_count: (s.frame_count + 1) as u64,
                phase: Phase::Poll,
                ..s
            })
        },
        now > s.pacing.next_frame_time ==> s.next(Event::Time(now)) == (CaptureModel {
            pacing: PacingModel {
                accumulated_delay: s.pacing.accumulated_delay + (now - s.pacing.next_frame_time),
                ..s.pacing
            },
            frame_count: (s.frame_count + 1) as u64,
            phase: Phase::Poll,
            ..s
        }),
{
    if now <= s.pacing.next_frame_time {
        let t = s.next(Event::Time(now));
        assert(t.pacing == s.pacing);
        assert(t == (CaptureModel { phase: t.phase, ..s }));
    }
}

/// A pause after a frame ends with the frame counted, however long it was.
#[verifier::spinoff_prover]
pub proof fn law_frame_is_counted(s: CaptureModel, nanos: u128)
    requires
        s.phase == Phase::Frame(FrameStep::Pause { nanos }),
        s.frame_count < u64::MAX,
    ensures
        s.next(Event::Done) == (CaptureModel {
            frame_count: (s.frame_count + 1) as u64,
            phase: Phase::Poll,
            ..s
        }),
{
}

/// Which events answer which actions.
#[verifier::spinoff_prover]
pub proof fn law_kinds_of_answers(action: Action, event: Event)
    ensures
        answers(action, event) <==> match event {
            Event::Done => {
                ||| action is CreateSamplePool
                ||| action is SignalReady
                ||| action is Sleep
                ||| action is ReportFocus
                ||| action is LockContext
                ||| action is CopySourceToPooled
                ||| action is CopyCursor
                ||| action is CopyPooledToStaging
                ||| action is CopyBlankToStaging
                ||| action is ReleaseTexture
                ||| action is UnlockContext
            },
            Event::Completed(_) => {
                ||| action is CreateStagingTexture
                ||| action is CreateBlankTexture
                ||| action is CreateTexturePool
                ||| action is SetupDuplication
                ||| action is AcquireTexture
                ||| action is CastResource
                ||| action is CreateCursorTexture
                ||| action is ReleaseFrame
                ||| action is AcquireSample
                ||| action is SetSampleTime
                ||| action is SendSample
            },
            Event::Flag(_) => action is PollRecording || action is CheckWindow,
            Event::Time(_) => action is ReadClock,
            Event::Foreground(_) => action is QueryForeground,
            Event::Found(_) => action is FindWindow,
            Event::Acquired(_) => action is AcquireFrame,
            Event::Cursor(_) => action is ReadCursor,
            Event::Size { .. } => action is DescribePooled,
        },
{
}

/// An answer of the right kind is accepted, but for the few whose numbers cannot be expressed: a
/// cursor whose start or row does not fit into 32 bits, a due time or a delay beyond the longest
/// time span, and a full counter.
#[verifier::spinoff_prover]
pub proof fn law_what_is_accepted(s: CaptureModel, event: Event)
    requires
        answers(s.action(), event),
    ensures
        s.accepts(event) <==> match s.phase {
            Phase::Frame(FrameStep::DescribeTarget { cursor }) => cursor_can_be_placed(cursor),
            Phase::Frame(FrameStep::Send { duplicate, stage: SendStage::SendSample }) => {
                ||| event matches Event::Completed(Err(_))
                ||| {
                    &&& s.pacing.next_frame_time + s.pacing.frame_duration
                        <= 18446744073709551615999999999
                    &&& !duplicate || s.pacing.num_duped < 18446744073709551615
                }
            },
            Phase::Frame(FrameStep::ReadClock) => {
                let late = event->Time_0 - s.pacing.next_frame_time;
                if late > 0 {
                    &&& s.pacing.accumulated_delay + late <= 18446744073709551615999999999
                    &&& s.frame_count < 18446744073709551615
                } else {
                    s.pacing.accumulated_delay <= 18446744073709551615999999999
                }
            },
            Phase::Frame(FrameStep::Pause { .. }) => s.frame_count < 18446744073709551615,
            _ => true,
        },
{
}

/// Whether the place of a cursor and the rows of its image can be told in 32 bits.
pub open spec fn cursor_can_be_placed(info: CursorInfo) -> bool {
    let across = info.position.0 - (if info.hotspot.0 < 0x8000_0000 {
        info.hotspot.0 as int
    } else {
        info.hotspot.0 - 0x1_0000_0000
    });
    let down = info.position.1 - (if info.hotspot.1 < 0x8000_0000 {
        info.hotspot.1 as int
    } else {
        info.hotspot.1 - 0x1_0000_0000
    });
    info.visible && info.shape is Some ==> {
        &&& -0x8000_0000 <= across < 0x8000_0000
        &&& -0x8000_0000 <= down < 0x8000_0000
        &&& match info.shape->Some_0 {
            CursorShape::Color { width, .. } => width < 0x4000_0000,
            CursorShape::MaskedColor { width, .. } => width < 0x4000_0000,
            CursorShape::Monochrome { .. } => true,
        }
    }
}

/// An event that does not answer the pending action changes nothing.
#[verifier::spinoff_prover]
#[verifier::rlimit(40)]
pub proof fn law_other_events_change_nothing(s: CaptureModel, event: Event)
    requires
        !answers(s.action(), event),
    ensures
        s.next(event) == s,
{
}

} // verus!
