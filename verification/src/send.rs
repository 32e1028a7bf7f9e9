//! Handing a frame over as a sample: three calls, each of which can fail.

use vstd::prelude::*;

use crate::error::WindowsError;

verus! {

/// The call that is due while a sample is sent.
#[derive(Clone, Copy, Debug, PartialEq, Eq, Structural)]
pub enum SendStage {
    /// Take a sample for the texture from the pool.
    AcquireSample,
    /// Stamp it with the frame count.
    SetSampleTime,
    /// Put it into the channel.
    SendSample,
}

/// How sending goes on after a call.
#[derive(Clone, Copy, Debug, PartialEq, Eq, Structural)]
pub enum SendProgress {
    Continue(SendStage),
    Sent,
    Failed(WindowsError),
}

/// How sending goes on after the call of a stage came back.
pub open spec fn send_progress(stage: SendStage, result: Result<(), WindowsError>) -> SendProgress {
    match result {
        Err(e) => SendProgress::Failed(e),
        Ok(_) => match stage {
            SendStage::AcquireSample => SendProgress::Continue(SendStage::SetSampleTime),
            SendStage::SetSampleTime => SendProgress::Continue(SendStage::SendSample),
            SendStage::SendSample => SendProgress::Sent,
        },
    }
}

/// Moves the sending of a sample on. A sample is acquired, then stamped, then sent; the first
/// call that fails ends it.
pub fn send_frame(stage: SendStage, result: Result<(), WindowsError>) -> (progress: SendProgress)
    ensures
        progress == send_progress(stage, result),
        result matches Err(e) ==> progress == SendProgress::Failed(e),
        result is Ok ==> match stage {
            SendStage::AcquireSample => progress == SendProgress::Continue(
                SendStage::SetSampleTime,
            ),
            SendStage::SetSampleTime => progress == SendProgress::Continue(SendStage::SendSample),
            SendStage::SendSample => progress == SendProgress::Sent,
        },
{
    if let Err(e) = result {
        return SendProgress::Failed(e);
    }
    match stage {
        SendStage::AcquireSample => SendProgress::Continue(SendStage::SetSampleTime),
        SendStage::SetSampleTime => SendProgress::Continue(SendStage::SendSample),
        SendStage::SendSample => SendProgress::Sent,
    }
}

} // verus!
