use window_capture::capture::{get_frames, Capture};
use window_capture::cursor::{CursorInfo, CursorShape};
use window_capture::error::WindowsError;
use window_capture::platform::{ACCESS_LOST, WAIT_TIMEOUT};
use window_capture::protocol::{Action, Event, TexturePoolPlan};

const HWND: isize = 42;
const OTHER_WINDOW: isize = 7;
const START: u128 = 1_000;
const FRAME: u128 = 16_666_666;
const OK: Event = Event::Completed(Ok(()));
const FAILURE: WindowsError = WindowsError { code: -2147467259 };
const FAILED: Event = Event::Completed(Err(FAILURE));

fn begin(capture_cursor: bool) -> Capture {
    get_frames(HWND, "game", 60, 1, 1920, 1080, true, capture_cursor, 0, START, None)
}

/// Checks that the action is the expected one, then answers it.
fn expect(run: &mut Capture, action: Action, answer: Event) {
    assert_eq!(run.action(), action);
    assert!(run.can_step(&answer));
    run.step(answer);
}

fn set_up(run: &mut Capture) {
    for answer in [OK, OK, OK, Event::Done, Event::Done, OK] {
        assert!(run.can_step(&answer));
        run.step(answer);
    }
}

/// Goes from the top of the loop to the start of a frame, without a window check.
fn next_frame(run: &mut Capture) {
    expect(run, Action::PollRecording, Event::Flag(true));
    expect(run, Action::ReadClock, Event::Time(0));
    assert_eq!(run.action(), Action::QueryForeground);
}

/// Goes from the start of a frame to the sending of it, with an image and without the focus.
fn compose_blank(run: &mut Capture) {
    expect(run, Action::QueryForeground, Event::Foreground(OTHER_WINDOW));
    if run.action() == (Action::ReportFocus { focused: false }) {
        run.step(Event::Done);
    }
    expect(run, Action::AcquireFrame { timeout_millis: 16 }, Event::Acquired(Ok(true)));
    expect(run, Action::LockContext, Event::Done);
    expect(run, Action::AcquireTexture, OK);
    expect(run, Action::CastResource, OK);
    expect(run, Action::CopyBlankToStaging, Event::Done);
    expect(run, Action::ReleaseFrame, OK);
    expect(run, Action::ReleaseTexture, Event::Done);
    expect(run, Action::UnlockContext, Event::Done);
}

fn send(run: &mut Capture, frame_count: u64) {
    expect(run, Action::AcquireSample, OK);
    expect(run, Action::SetSampleTime { frame_count }, OK);
    expect(run, Action::SendSample, OK);
}

#[test]
fn setting_up_creates_the_resources_in_order() {
    let mut run = begin(false);
    expect(&mut run, Action::CreateStagingTexture { width: 1920, height: 1080 }, OK);
    expect(&mut run, Action::CreateBlankTexture { width: 1920, height: 1080 }, OK);
    expect(
        &mut run,
        Action::CreateTexturePool(TexturePoolPlan {
            capacity: 10,
            width: 1920,
            height: 1080,
            format: windows::Win32::Graphics::Dxgi::Common::DXGI_FORMAT_B8G8R8A8_UNORM.0,
            usage: 0,
            bind_flags: 8,
            cpu_access_flags: 0,
            misc_flags: 0,
        }),
        OK,
    );
    expect(&mut run, Action::CreateSamplePool { fps_num: 60, capacity: 10 }, Event::Done);
    expect(&mut run, Action::SignalReady, Event::Done);
    expect(&mut run, Action::SetupDuplication, OK);
    assert_eq!(run.action(), Action::PollRecording);
}

#[test]
fn failing_to_create_a_resource_ends_the_run() {
    for created in 0..3 {
        let mut run = begin(false);
        for _ in 0..created {
            run.step(OK);
        }
        run.step(FAILED);
        assert_eq!(run.action(), Action::Finish(Err(FAILURE)));
        assert!(!run.can_step(&OK));
        assert!(!run.can_step(&Event::Done));
    }
}

#[test]
fn run_ends_when_told_to() {
    let mut run = begin(false);
    set_up(&mut run);
    expect(&mut run, Action::PollRecording, Event::Flag(false));
    assert_eq!(run.action(), Action::Finish(Ok(())));
}

#[test]
fn unfocused_window_is_blank() {
    let mut run = begin(false);
    set_up(&mut run);
    next_frame(&mut run);
    compose_blank(&mut run);
    send(&mut run, 0);
    expect(&mut run, Action::ReadClock, Event::Time(START));
    expect(&mut run, Action::Sleep { nanos: FRAME }, Event::Done);
    assert_eq!(run.action(), Action::PollRecording);
    assert_eq!(run.frame_count(), 1);
    assert_eq!(run.num_duped(), 0);
    assert_eq!(run.last_focus(), Some(false));
}

#[test]
fn focused_window_is_shown_with_its_cursor() {
    let mut run = begin(true);
    set_up(&mut run);
    next_frame(&mut run);
    let info = CursorInfo {
        position: (100, 100),
        hotspot: (0, 0),
        visible: true,
        shape: Some(CursorShape::Color { width: 32, height: 32 }),
    };
    expect(&mut run, Action::QueryForeground, Event::Foreground(HWND));
    expect(&mut run, Action::ReportFocus { focused: true }, Event::Done);
    expect(&mut run, Action::AcquireFrame { timeout_millis: 16 }, Event::Acquired(Ok(true)));
    expect(&mut run, Action::ReadCursor, Event::Cursor(Ok(info)));
    expect(&mut run, Action::LockContext, Event::Done);
    expect(&mut run, Action::AcquireTexture, OK);
    expect(&mut run, Action::CastResource, OK);
    expect(&mut run, Action::CopySourceToPooled, Event::Done);
    expect(&mut run, Action::DescribePooled, Event::Size { width: 1920, height: 1080 });
    assert!(matches!(run.action(), Action::CreateCursorTexture(t) if t.row_pitch == 128));
    run.step(OK);
    assert!(matches!(run.action(), Action::CopyCursor(r) if r.dest_x == 100 && r.right == 32));
    run.step(Event::Done);
    expect(&mut run, Action::CopyPooledToStaging, Event::Done);
    expect(&mut run, Action::ReleaseFrame, OK);
    expect(&mut run, Action::ReleaseTexture, Event::Done);
    expect(&mut run, Action::UnlockContext, Event::Done);
    send(&mut run, 0);
    assert_eq!(run.action(), Action::ReadClock);
}

#[test]
fn cursor_failures_are_passed_over() {
    let mut run = begin(true);
    set_up(&mut run);
    next_frame(&mut run);
    run.step(Event::Foreground(HWND));
    run.step(Event::Done);
    run.step(Event::Acquired(Ok(true)));
    expect(&mut run, Action::ReadCursor, Event::Cursor(Err(FAILURE)));
    expect(&mut run, Action::LockContext, Event::Done);
    expect(&mut run, Action::AcquireTexture, OK);
    expect(&mut run, Action::CastResource, OK);
    expect(&mut run, Action::CopySourceToPooled, Event::Done);
    assert_eq!(run.action(), Action::CopyPooledToStaging);
}

#[test]
fn cursor_texture_failure_is_passed_over() {
    let mut run = begin(true);
    set_up(&mut run);
    next_frame(&mut run);
    let info = CursorInfo {
        position: (100, 100),
        hotspot: (0, 0),
        visible: true,
        shape: Some(CursorShape::Color { width: 32, height: 32 }),
    };
    for answer in [
        Event::Foreground(HWND),
        Event::Done,
        Event::Acquired(Ok(true)),
        Event::Cursor(Ok(info)),
        Event::Done,
        OK,
        OK,
        Event::Done,
        Event::Size { width: 1920, height: 1080 },
        FAILED,
    ] {
        assert!(run.can_step(&answer));
        run.step(answer);
    }
    assert_eq!(run.action(), Action::CopyPooledToStaging);
}

#[test]
fn cursor_out_of_range_is_refused() {
    let mut run = begin(true);
    set_up(&mut run);
    next_frame(&mut run);
    let info = CursorInfo {
        position: (i32::MIN, 0),
        hotspot: (1, 0),
        visible: true,
        shape: Some(CursorShape::Color { width: 32, height: 32 }),
    };
    for answer in [
        Event::Foreground(HWND),
        Event::Done,
        Event::Acquired(Ok(true)),
        Event::Cursor(Ok(info)),
        Event::Done,
        OK,
        OK,
        Event::Done,
    ] {
        run.step(answer);
    }
    assert_eq!(run.action(), Action::DescribePooled);
    assert!(!run.can_step(&Event::Size { width: 1920, height: 1080 }));
}

#[test]
fn focus_is_reported_only_when_it_changes() {
    let mut run = begin(false);
    set_up(&mut run);
    let mut reports: Vec<bool> = Vec::new();
    for foreground in [OTHER_WINDOW, OTHER_WINDOW, HWND, HWND, OTHER_WINDOW] {
        next_frame(&mut run);
        run.step(Event::Foreground(foreground));
        if let Action::ReportFocus { focused } = run.action() {
            reports.push(focused);
            run.step(Event::Done);
        }
        run.step(Event::Acquired(Err(WindowsError { code: WAIT_TIMEOUT })));
    }
    assert_eq!(reports, vec![false, true, false]);
}

#[test]
fn frame_without_an_image_is_sent_as_it_was() {
    let mut run = begin(false);
    set_up(&mut run);
    next_frame(&mut run);
    run.step(Event::Foreground(HWND));
    run.step(Event::Done);
    run.step(Event::Acquired(Ok(false)));
    expect(&mut run, Action::LockContext, Event::Done);
    expect(&mut run, Action::UnlockContext, Event::Done);
    send(&mut run, 0);
}

#[test]
fn late_run_catches_up_with_duplicates() {
    let mut run = begin(false);
    set_up(&mut run);
    next_frame(&mut run);
    compose_blank(&mut run);
    send(&mut run, 0);
    // Due at START + FRAME, done two and a half frames later.
    let late: u128 = 2 * FRAME + FRAME / 2;
    expect(&mut run, Action::ReadClock, Event::Time(START + FRAME + late));
    assert_eq!(run.action(), Action::PollRecording);
    assert_eq!(run.frame_count(), 1);

    next_frame(&mut run);
    compose_blank(&mut run);
    send(&mut run, 1);
    assert_eq!(run.num_duped(), 1);
    send(&mut run, 1);
    assert_eq!(run.num_duped(), 2);
    send(&mut run, 1);
    assert_eq!(run.num_duped(), 2);
    // Four samples were sent, so the next frame is due four frames after the start.
    expect(&mut run, Action::ReadClock, Event::Time(START + 4 * FRAME - 10));
    expect(&mut run, Action::Sleep { nanos: 10 }, Event::Done);
    assert_eq!(run.frame_count(), 2);

    // Half a frame of delay is left, which is no reason for a duplicate.
    next_frame(&mut run);
    compose_blank(&mut run);
    send(&mut run, 2);
    assert_eq!(run.action(), Action::ReadClock);
    assert_eq!(run.num_duped(), 2);
}

#[test]
fn exactly_one_frame_late_is_one_duplicate() {
    let mut run = begin(false);
    set_up(&mut run);
    next_frame(&mut run);
    compose_blank(&mut run);
    send(&mut run, 0);
    expect(&mut run, Action::ReadClock, Event::Time(START + 2 * FRAME));
    next_frame(&mut run);
    compose_blank(&mut run);
    send(&mut run, 1);
    send(&mut run, 1);
    assert_eq!(run.action(), Action::ReadClock);
    assert_eq!(run.num_duped(), 1);
}

#[test]
fn failed_send_ends_the_run_quietly() {
    for sent in 0..3 {
        let mut run = begin(false);
        set_up(&mut run);
        next_frame(&mut run);
        compose_blank(&mut run);
        for _ in 0..sent {
            run.step(OK);
        }
        run.step(FAILED);
        assert_eq!(run.action(), Action::Finish(Ok(())));
        assert_eq!(run.frame_count(), 0);
    }
}

#[test]
fn timeout_costs_only_the_frame() {
    let mut run = begin(false);
    set_up(&mut run);
    next_frame(&mut run);
    run.step(Event::Foreground(OTHER_WINDOW));
    run.step(Event::Done);
    run.step(Event::Acquired(Err(WindowsError { code: WAIT_TIMEOUT })));
    next_frame(&mut run);
    assert_eq!(run.frame_count(), 0);
}

#[test]
fn lost_access_reconnects_before_the_next_frame() {
    let mut run = begin(false);
    set_up(&mut run);
    next_frame(&mut run);
    run.step(Event::Foreground(OTHER_WINDOW));
    run.step(Event::Done);
    run.step(Event::Acquired(Err(WindowsError { code: ACCESS_LOST })));
    expect(&mut run, Action::PollRecording, Event::Flag(true));
    expect(&mut run, Action::ReadClock, Event::Time(0));
    expect(&mut run, Action::SetupDuplication, FAILED);
    expect(&mut run, Action::Sleep { nanos: 100_000_000 }, Event::Done);
    expect(&mut run, Action::PollRecording, Event::Flag(true));
    expect(&mut run, Action::ReadClock, Event::Time(0));
    expect(&mut run, Action::SetupDuplication, OK);
    assert_eq!(run.action(), Action::QueryForeground);
}

#[test]
fn failed_first_duplication_is_tried_again() {
    let mut run = begin(false);
    for answer in [OK, OK, OK, Event::Done, Event::Done, FAILED] {
        run.step(answer);
    }
    expect(&mut run, Action::PollRecording, Event::Flag(true));
    expect(&mut run, Action::ReadClock, Event::Time(0));
    expect(&mut run, Action::SetupDuplication, OK);
    assert_eq!(run.action(), Action::QueryForeground);
}

#[test]
fn other_errors_end_the_run() {
    let mut run = begin(false);
    set_up(&mut run);
    next_frame(&mut run);
    run.step(Event::Foreground(OTHER_WINDOW));
    run.step(Event::Done);
    run.step(Event::Acquired(Err(FAILURE)));
    assert_eq!(run.action(), Action::Finish(Err(FAILURE)));
}

#[test]
fn context_is_unlocked_after_a_failure() {
    // An exhausted pool, a failed cast and a failed release, each with what follows.
    let blank: [Event; 2] = [OK, OK];
    let cases: [(&[Event], Action); 3] = [
        (&[], Action::PollRecording),
        (&blank[..1], Action::Finish(Err(FAILURE))),
        (&[OK, OK, Event::Done], Action::Finish(Err(FAILURE))),
    ];
    for (answers, end) in cases {
        let mut run = begin(false);
        set_up(&mut run);
        next_frame(&mut run);
        run.step(Event::Foreground(OTHER_WINDOW));
        run.step(Event::Done);
        run.step(Event::Acquired(Ok(true)));
        expect(&mut run, Action::LockContext, Event::Done);
        for answer in answers {
            run.step(*answer);
        }
        run.step(FAILED);
        expect(&mut run, Action::UnlockContext, Event::Done);
        assert_eq!(run.action(), end);
        assert_eq!(run.frame_count(), 0);
    }
}

#[test]
fn lost_window_is_searched_for() {
    let mut run = begin(false);
    set_up(&mut run);
    expect(&mut run, Action::PollRecording, Event::Flag(true));
    expect(&mut run, Action::ReadClock, Event::Time(2_000_000_000));
    expect(&mut run, Action::CheckWindow { hwnd: HWND }, Event::Flag(false));
    assert_eq!(run.process_name(), "game");
    expect(&mut run, Action::FindWindow { exact: true }, Event::Found(Some(43)));
    expect(&mut run, Action::QueryForeground, Event::Foreground(43));
    assert_eq!(run.last_focus(), Some(true));
}

#[test]
fn window_found_late_is_followed_afresh() {
    let mut run = begin(false);
    set_up(&mut run);
    expect(&mut run, Action::PollRecording, Event::Flag(true));
    expect(&mut run, Action::ReadClock, Event::Time(2_000_000_000));
    expect(&mut run, Action::CheckWindow { hwnd: HWND }, Event::Flag(false));
    expect(&mut run, Action::FindWindow { exact: true }, Event::Found(None));
    expect(&mut run, Action::FindWindow { exact: true }, Event::Found(Some(44)));
    expect(&mut run, Action::ReadClock, Event::Time(3_000_000_000));
    expect(&mut run, Action::QueryForeground, Event::Foreground(44));
    expect(&mut run, Action::ReportFocus { focused: true }, Event::Done);
    run.step(Event::Acquired(Err(WindowsError { code: WAIT_TIMEOUT })));
    // The next check is due two seconds after the window was found.
    expect(&mut run, Action::PollRecording, Event::Flag(true));
    expect(&mut run, Action::ReadClock, Event::Time(4_999_999_999));
    run.step(Event::Foreground(44));
    run.step(Event::Acquired(Err(WindowsError { code: WAIT_TIMEOUT })));
    expect(&mut run, Action::PollRecording, Event::Flag(true));
    expect(&mut run, Action::ReadClock, Event::Time(5_000_000_000));
    assert_eq!(run.action(), Action::CheckWindow { hwnd: 44 });
}

#[test]
fn window_that_stays_lost_is_waited_for() {
    let mut run = begin(false);
    set_up(&mut run);
    run.step(Event::Flag(true));
    run.step(Event::Time(2_000_000_000));
    run.step(Event::Flag(false));
    run.step(Event::Found(None));
    run.step(Event::Found(None));
    expect(&mut run, Action::Sleep { nanos: 1_000_000 }, Event::Done);
    expect(&mut run, Action::PollRecording, Event::Flag(true));
    // The handle is not looked at again before the next check is due.
    expect(&mut run, Action::ReadClock, Event::Time(2_001_000_000));
    assert_eq!(run.action(), Action::QueryForeground);
}

#[test]
fn answers_of_another_kind_are_refused() {
    let run = begin(false);
    assert!(run.can_step(&OK));
    assert!(run.can_step(&FAILED));
    assert!(!run.can_step(&Event::Done));
    assert!(!run.can_step(&Event::Flag(true)));
    assert!(!run.can_step(&Event::Time(0)));
    assert!(!run.can_step(&Event::Found(None)));
}

#[test]
fn schedule_that_cannot_be_expressed_is_refused() {
    let longest: u128 = std::time::Duration::MAX.as_nanos();
    let mut run = get_frames(HWND, "game", 60, 1, 16, 16, false, false, 0, longest, None);
    set_up(&mut run);
    next_frame(&mut run);
    compose_blank(&mut run);
    run.step(OK);
    run.step(OK);
    assert_eq!(run.action(), Action::SendSample);
    assert!(!run.can_step(&OK));
    assert!(run.can_step(&FAILED));
}

#[test]
fn system_errors_with_the_context_held_act_like_those_before() {
    let timeout = WindowsError { code: WAIT_TIMEOUT };
    let lost = WindowsError { code: ACCESS_LOST };
    // The cast fails after one answer, the release after three.
    let until_cast: [Event; 1] = [OK];
    let until_release: [Event; 3] = [OK, OK, Event::Done];
    for answers in [&until_cast[..], &until_release[..]] {
        for (error, reconnects) in [(timeout, false), (lost, true)] {
            let mut run = begin(false);
            set_up(&mut run);
            next_frame(&mut run);
            run.step(Event::Foreground(OTHER_WINDOW));
            run.step(Event::Done);
            run.step(Event::Acquired(Ok(true)));
            run.step(Event::Done);
            for answer in answers {
                run.step(*answer);
            }
            run.step(Event::Completed(Err(error)));
            expect(&mut run, Action::UnlockContext, Event::Done);
            expect(&mut run, Action::PollRecording, Event::Flag(true));
            expect(&mut run, Action::ReadClock, Event::Time(0));
            assert_eq!(run.frame_count(), 0);
            assert_eq!(
                run.action(),
                if reconnects { Action::SetupDuplication } else { Action::QueryForeground }
            );
        }
    }
}

#[test]
fn sample_times_count_up_from_zero() {
    let mut run = begin(false);
    set_up(&mut run);
    let mut times: Vec<u64> = Vec::new();
    // The first frame ends two frames late, the second never arrives, the rest are in time.
    let mut frames: u32 = 0;
    while times.len() < 6 {
        next_frame(&mut run);
        frames += 1;
        if frames == 2 {
            run.step(Event::Foreground(OTHER_WINDOW));
            run.step(Event::Acquired(Err(WindowsError { code: WAIT_TIMEOUT })));
            continue;
        }
        compose_blank(&mut run);
        while run.action() == Action::AcquireSample {
            run.step(OK);
            if let Action::SetSampleTime { frame_count } = run.action() {
                times.push(frame_count);
            }
            run.step(OK);
            run.step(OK);
        }
        let end: u128 = if frames == 1 { START + 3 * FRAME } else { 0 };
        expect(&mut run, Action::ReadClock, Event::Time(end));
        if frames > 1 {
            run.step(Event::Done);
        }
    }
    assert_eq!(times, vec![0, 1, 1, 1, 2, 3]);
}

#[test]
fn first_check_is_two_seconds_after_the_window_was_picked() {
    let mut run = get_frames(HWND, "game", 60, 1, 16, 16, false, false, 500, START, None);
    set_up(&mut run);
    expect(&mut run, Action::PollRecording, Event::Flag(true));
    expect(&mut run, Action::ReadClock, Event::Time(2_000_000_499));
    run.step(Event::Foreground(OTHER_WINDOW));
    run.step(Event::Done);
    run.step(Event::Acquired(Err(WindowsError { code: WAIT_TIMEOUT })));
    expect(&mut run, Action::PollRecording, Event::Flag(true));
    expect(&mut run, Action::ReadClock, Event::Time(2_000_000_500));
    assert_eq!(run.action(), Action::CheckWindow { hwnd: HWND });
}
