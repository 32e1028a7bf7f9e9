use window_capture::com::ensure_com_initialized;
use window_capture::error::{react, FrameError, Reaction, SendError, WindowsError};
use window_capture::platform::{ACCESS_LOST, ALREADY_INITIALIZED, CHANGED_MODE, WAIT_TIMEOUT};
use window_capture::send::{send_frame, SendProgress, SendStage};

const OTHER: WindowsError = WindowsError { code: -2147467259 };

#[test]
fn codes_are_those_of_the_system() {
    assert_eq!(windows::Win32::Graphics::Dxgi::DXGI_ERROR_WAIT_TIMEOUT.0, WAIT_TIMEOUT);
    assert_eq!(windows::Win32::Graphics::Dxgi::DXGI_ERROR_ACCESS_LOST.0, ACCESS_LOST);
    assert_eq!(windows::Win32::Foundation::CO_E_ALREADYINITIALIZED.0, ALREADY_INITIALIZED);
    assert_eq!(windows::Win32::Foundation::RPC_E_CHANGED_MODE.0, CHANGED_MODE);
    assert_eq!(WAIT_TIMEOUT as u32, 0x887A_0027);
    assert_eq!(ACCESS_LOST as u32, 0x887A_0026);
    assert_eq!(ALREADY_INITIALIZED as u32, 0x8004_01F1);
    assert_eq!(CHANGED_MODE as u32, 0x8001_0106);
}

#[test]
fn errors_convert() {
    assert_eq!(FrameError::from(SendError), FrameError::SendError(SendError));
    assert_eq!(FrameError::from(OTHER), FrameError::WindowsError(OTHER));
}

#[test]
fn reactions_to_each_ending_of_a_frame() {
    let timeout = WindowsError { code: WAIT_TIMEOUT };
    let lost = WindowsError { code: ACCESS_LOST };
    assert_eq!(react(Ok(())), Reaction::CountFrame);
    assert_eq!(react(Err(FrameError::SendError(SendError))), Reaction::Stop);
    assert_eq!(react(Err(FrameError::ChannelClosed)), Reaction::Stop);
    assert_eq!(react(Err(FrameError::TexturePoolError)), Reaction::Retry);
    assert_eq!(react(Err(FrameError::WindowsError(timeout))), Reaction::Retry);
    assert_eq!(react(Err(FrameError::WindowsError(lost))), Reaction::Reconnect);
    assert_eq!(react(Err(FrameError::WindowsError(OTHER))), Reaction::Fail(OTHER));
}

#[test]
fn com_may_be_initialized_before() {
    assert_eq!(ensure_com_initialized(Ok(())), Ok(()));
    assert_eq!(ensure_com_initialized(Err(WindowsError { code: ALREADY_INITIALIZED })), Ok(()));
    assert_eq!(ensure_com_initialized(Err(WindowsError { code: CHANGED_MODE })), Ok(()));
    assert_eq!(ensure_com_initialized(Err(OTHER)), Err(OTHER));
}

#[test]
fn sending_takes_three_calls() {
    assert_eq!(
        send_frame(SendStage::AcquireSample, Ok(())),
        SendProgress::Continue(SendStage::SetSampleTime)
    );
    assert_eq!(
        send_frame(SendStage::SetSampleTime, Ok(())),
        SendProgress::Continue(SendStage::SendSample)
    );
    assert_eq!(send_frame(SendStage::SendSample, Ok(())), SendProgress::Sent);
    assert_eq!(send_frame(SendStage::AcquireSample, Err(OTHER)), SendProgress::Failed(OTHER));
    assert_eq!(send_frame(SendStage::SetSampleTime, Err(OTHER)), SendProgress::Failed(OTHER));
    assert_eq!(send_frame(SendStage::SendSample, Err(OTHER)), SendProgress::Failed(OTHER));
}
