//! The conversation between a run and the outside: the actions it asks for and the events that
//! answer them.

use vstd::prelude::*;

use crate::cursor::{CopyRegion, CursorInfo, CursorTexture};
use crate::error::WindowsError;

verus! {

/// How the pool of reusable textures is set up.
#[derive(Clone, Copy, Debug, PartialEq, Eq, Structural)]
pub struct TexturePoolPlan {
    pub capacity: u32,
    pub width: u32,
    pub height: u32,
    pub format: u32,
    pub usage: u32,
    pub bind_flags: u32,
    pub cpu_access_flags: u32,
    pub misc_flags: u32,
}

/// A piece of outside work that a run asks for.
#[derive(Clone, Copy, Debug, PartialEq, Eq)]
pub enum Action {
    /// Create the texture that samples are made from.
    CreateStagingTexture { width: u32, height: u32 },
    /// Create the texture that is shown in place of the window.
    CreateBlankTexture { width: u32, height: u32 },
    /// Create the pool of textures that frames are composed in.
    CreateTexturePool(TexturePoolPlan),
    /// Create the pool of samples.
    CreateSamplePool { fps_num: u32, capacity: u32 },
    /// Wait at the barrier that tells the other threads that capturing can begin.
    SignalReady,
    /// Set up the desktop duplication interface.
    SetupDuplication,
    /// Read the flag that keeps the run going.
    PollRecording,
    /// Read the clock.
    ReadClock,
    /// Ask whether a window handle is valid.
    CheckWindow { hwnd: isize },
    /// Search for the window by the run's name, as a whole title or as a part of one.
    FindWindow { exact: bool },
    /// Sleep.
    Sleep { nanos: u128 },
    /// Read the handle of the foreground window.
    QueryForeground,
    /// Report that the window gained or lost the focus.
    ReportFocus { focused: bool },
    /// Acquire the next frame of the desktop.
    AcquireFrame { timeout_millis: u32 },
    /// Read the cursor of the acquired frame.
    ReadCursor,
    /// Lock the device context.
    LockContext,
    /// Take a texture from the pool.
    AcquireTexture,
    /// View the acquired frame as a texture.
    CastResource,
    /// Copy the acquired frame into the pooled texture.
    CopySourceToPooled,
    /// Read the size of the pooled texture.
    DescribePooled,
    /// Load the cursor image into a texture of its own.
    CreateCursorTexture(CursorTexture),
    /// Copy the cursor onto the pooled texture.
    CopyCursor(CopyRegion),
    /// Copy the pooled texture into the staging texture.
    CopyPooledToStaging,
    /// Copy the blank texture into the staging texture.
    CopyBlankToStaging,
    /// Drop the frame's texture and release the frame.
    ReleaseFrame,
    /// Give the pooled texture back.
    ReleaseTexture,
    /// Unlock the device context.
    UnlockContext,
    /// Take a sample for the staging texture from the pool.
    AcquireSample,
    /// Stamp the sample.
    SetSampleTime { frame_count: u64 },
    /// Send the sample.
    SendSample,
    /// Nothing more is asked for: the run is over with this result.
    Finish(Result<(), WindowsError>),
}

/// What came back from an action.
#[derive(Clone, Copy, Debug, PartialEq, Eq)]
pub enum Event {
    /// The action is done; it cannot fail.
    Done,
    /// The action succeeded or failed.
    Completed(Result<(), WindowsError>),
    /// The answer to a question.
    Flag(bool),
    /// The clock, in nanoseconds.
    Time(u128),
    /// The foreground window.
    Foreground(isize),
    /// The window that a search found, if any.
    Found(Option<isize>),
    /// Whether the acquired frame holds an image, or why there is no frame.
    Acquired(Result<bool, WindowsError>),
    /// The cursor, or why it could not be read.
    Cursor(Result<CursorInfo, WindowsError>),
    /// The size of a texture.
    Size { width: u32, height: u32 },
}

/// Whether an event is of the kind that answers an action.
pub open spec fn answers(action: Action, event: Event) -> bool {
    match action {
        Action::CreateStagingTexture { .. } => event is Completed,
        Action::CreateBlankTexture { .. } => event is Completed,
        Action::CreateTexturePool(_) => event is Completed,
        Action::CreateSamplePool { .. } => event is Done,
        Action::SignalReady => event is Done,
        Action::SetupDuplication => event is Completed,
        Action::PollRecording => event is Flag,
        Action::ReadClock => event is Time,
        Action::CheckWindow { .. } => event is Flag,
        Action::FindWindow { .. } => event is Found,
        Action::Sleep { .. } => event is Done,
        Action::QueryForeground => event is Foreground,
        Action::ReportFocus { .. } => event is Done,
        Action::AcquireFrame { .. } => event is Acquired,
        Action::ReadCursor => event is Cursor,
        Action::LockContext => event is Done,
        Action::AcquireTexture => event is Completed,
        Action::CastResource => event is Completed,
        Action::CopySourceToPooled => event is Done,
        Action::DescribePooled => event is Size,
        Action::CreateCursorTexture(_) => event is Completed,
        Action::CopyCursor(_) => event is Done,
        Action::CopyPooledToStaging => event is Done,
        Action::CopyBlankToStaging => event is Done,
        Action::ReleaseFrame => event is Completed,
        Action::ReleaseTexture => event is Done,
        Action::UnlockContext => event is Done,
        Action::AcquireSample => event is Completed,
        Action::SetSampleTime { .. } => event is Completed,
        Action::SendSample => event is Completed,
        Action::Finish(_) => false,
    }
}

/// Tells whether an event is of the kind that answers an action.
pub fn is_answer(action: &Action, event: &Event) -> (b: bool)
    ensures
        b == answers(*action, *event),
{
    match action {
        Action::CreateStagingTexture { .. }
        | Action::CreateBlankTexture { .. }
        | Action::CreateTexturePool(_)
        | Action::SetupDuplication
        | Action::AcquireTexture
        | Action::CastResource
        | Action::CreateCursorTexture(_)
        | Action::ReleaseFrame
        | Action::AcquireSample
        | Action::SetSampleTime { .. }
        | Action::SendSample => matches!(event, Event::Completed(_)),
        Action::CreateSamplePool { .. }
        | Action::SignalReady
        | Action::Sleep { .. }
        | Action::ReportFocus { .. }
        | Action::LockContext
        | Action::CopySourceToPooled
        | Action::CopyCursor(_)
        | Action::CopyPooledToStaging
        | Action::CopyBlankToStaging
        | Action::ReleaseTexture
        | Action::UnlockContext => matches!(event, Event::Done),
        Action::PollRecording | Action::CheckWindow { .. } => matches!(event, Event::Flag(_)),
        Action::ReadClock => matches!(event, Event::Time(_)),
        Action::FindWindow { .. } => matches!(event, Event::Found(_)),
        Action::QueryForeground => matches!(event, Event::Foreground(_)),
        Action::AcquireFrame { .. } => matches!(event, Event::Acquired(_)),
        Action::ReadCursor => matches!(event, Event::Cursor(_)),
        Action::DescribePooled => matches!(event, Event::Size { .. }),
        Action::Finish(_) => false,
    }
}

} // verus!
