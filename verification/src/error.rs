//! What can go wrong while a frame is captured, and how the run reacts to it.

use vstd::prelude::*;

use crate::platform::{access_lost_code, wait_timeout_code, ACCESS_LOST, WAIT_TIMEOUT};

verus! {

/// A failed system call, known by its `HRESULT`.
#[derive(Clone, Copy, Debug, PartialEq, Eq, Structural)]
pub struct WindowsError {
    pub code: i32,
}

/// A sample that could not be handed over because the receiver is gone.
#[derive(Clone, Copy, Debug, PartialEq, Eq, Structural)]
pub struct SendError;

/// Why a frame was not completed.
#[derive(Clone, Copy, Debug, PartialEq, Eq, Structural)]
pub enum FrameError {
    SendError(SendError),
    WindowsError(WindowsError),
    ChannelClosed,
    TexturePoolError,
}

impl From<SendError> for FrameError {
    fn from(err: SendError) -> (r: Self) {
        FrameError::SendError(err)
    }
}

impl vstd::std_specs::convert::FromSpecImpl<SendError> for FrameError {
    open spec fn obeys_from_spec() -> bool {
        true
    }

    open spec fn from_spec(err: SendError) -> Self {
        FrameError::SendError(err)
    }
}

impl From<WindowsError> for FrameError {
    fn from(err: WindowsError) -> (r: Self) {
        FrameError::WindowsError(err)
    }
}

impl vstd::std_specs::convert::FromSpecImpl<WindowsError> for FrameError {
    open spec fn obeys_from_spec() -> bool {
        true
    }

    open spec fn from_spec(err: WindowsError) -> Self {
        FrameError::WindowsError(err)
    }
}

/// What a run does once a frame has ended.
#[derive(Clone, Copy, Debug, PartialEq, Eq, Structural)]
pub enum Reaction {
    /// The frame counts; go on with the next one.
    CountFrame,
    /// The frame does not count; go on with the next one.
    Retry,
    /// The frame does not count, and the duplication interface must be set up again first.
    Reconnect,
    /// The run is over, without an error.
    Stop,
    /// The run is over with this error.
    Fail(WindowsError),
}

/// The reaction that each way of ending a frame calls for.
pub open spec fn reaction_to(result: Result<(), FrameError>) -> Reaction {
    match result {
        Ok(_) => Reaction::CountFrame,
        Err(FrameError::SendError(_)) => Reaction::Stop,
        Err(FrameError::ChannelClosed) => Reaction::Stop,
        Err(FrameError::TexturePoolError) => Reaction::Retry,
        Err(FrameError::WindowsError(e)) => if e.code == WAIT_TIMEOUT {
            Reaction::Retry
        } else if e.code == ACCESS_LOST {
            Reaction::Reconnect
        } else {
            Reaction::Fail(e)
        },
    }
}

/// Decides how a run goes on after a frame.
///
/// A closed channel ends the run quietly. A timeout and an exhausted texture pool only cost the
/// frame. Losing access to the desktop makes the run reconnect. Any other system error ends it.
pub fn react(result: Result<(), FrameError>) -> (r: Reaction)
    ensures
        r == reaction_to(result),
        r == Reaction::CountFrame <==> result is Ok,
        r == Reaction::Stop <==> (result is Err && (result->Err_0 is SendError || result->Err_0
            is ChannelClosed)),
        r == Reaction::Retry <==> (result is Err && (result->Err_0 is TexturePoolError || (
        result->Err_0 matches FrameError::WindowsError(e) && e.code == WAIT_TIMEOUT))),
        r == Reaction::Reconnect <==> (result matches Err(FrameError::WindowsError(e)) && e.code
            == ACCESS_LOST),
        r is Fail ==> result == Err::<(), FrameError>(FrameError::WindowsError(r->Fail_0)),
{
    match result {
        Ok(_) => Reaction::CountFrame,
        Err(FrameError::SendError(_)) | Err(FrameError::ChannelClosed) => Reaction::Stop,
        Err(FrameError::TexturePoolError) => Reaction::Retry,
        Err(FrameError::WindowsError(e)) => {
            if e.code == wait_timeout_code() {
                return Reaction::Retry;
            }
            if e.code == access_lost_code() {
                return Reaction::Reconnect;
            }
            Reaction::Fail(e)
        },
    }
}

} // verus!
