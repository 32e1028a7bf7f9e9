//! Frames: what they show, what they hold on to, and what they send.

use vstd::prelude::*;

use crate::capture::{CaptureModel, Phase};
use crate::frame::{send_step, FrameStep};
use crate::laws::{count, run, runs, succeeded};
use crate::protocol::{Action, Event};

verus! {

/// Whether a run is in a frame whose focus has been read.
pub open spec fn in_frame(s: CaptureModel) -> bool {
    s.phase is Frame && !(s.phase->Frame_0 is QueryForeground)
}

/// Whether a sequence of events, begun at the start of a frame, does not leave that frame.
pub open spec fn same_frame(start: CaptureModel, events: Seq<Event>) -> bool {
    forall|i: int| 1 <= i <= events.len() ==> in_frame(#[trigger] run(start, events.take(i)))
}

/// The prefixes of a run that stays in a frame stay in it, too.
proof fn lemma_same_frame_prefix(start: CaptureModel, events: Seq<Event>)
    requires
        events.len() > 0,
        same_frame(start, events),
    ensures
        same_frame(start, events.drop_last()),
        in_frame(run(start, events)),
{
    let before = events.drop_last();
    assert forall|i: int| 1 <= i <= before.len() implies in_frame(
        #[trigger] run(start, before.take(i)),
    ) by {
        assert(before.take(i) =~= events.take(i));
    }
    assert(events.take(events.len() as int) =~= events);
}

/// The focus that a step goes by, while the frame is composed.
pub open spec fn focus_of(step: FrameStep) -> Option<bool> {
    match step {
        FrameStep::ReportFocus { focused } => Some(focused),
        FrameStep::AcquireFrame { focused } => Some(focused),
        FrameStep::ReadCursor { focused, .. } => Some(focused),
        FrameStep::LockContext { focused, .. } => Some(focused),
        FrameStep::AcquireTexture { focused, .. } => Some(focused),
        FrameStep::CastResource { focused, .. } => Some(focused),
        FrameStep::CopySource { .. } => Some(true),
        FrameStep::DescribeTarget { .. } => Some(true),
        FrameStep::CreateCursor { .. } => Some(true),
        FrameStep::CopyCursor { .. } => Some(true),
        FrameStep::CopyPooled => Some(true),
        FrameStep::CopyBlank => Some(false),
        _ => None,
    }
}

/// Once the focus is read, a frame goes by it until it is composed.
#[verifier::spinoff_prover]
proof fn lemma_step_keeps_focus(s: CaptureModel, event: Event)
    requires
        s.phase is Frame,
        s.accepts(event),
        in_frame(s.next(event)),
    ensures
        focus_of(s.next(event).phase->Frame_0) matches Some(focused) ==> if s.phase->Frame_0
            is QueryForeground {
            focused == (event->Foreground_0 == s.tracker.hwnd)
        } else {
            focus_of(s.phase->Frame_0) == Some(focused)
        },
{
}

/// A frame that is composed goes by the focus that was read at its start.
#[verifier::spinoff_prover]
#[verifier::rlimit(40)]
proof fn lemma_focus_is_kept(start: CaptureModel, events: Seq<Event>)
    requires
        start.phase == Phase::Frame(FrameStep::QueryForeground),
        events.len() > 0,
        runs(start, events),
        same_frame(start, events),
    ensures
        focus_of(run(start, events).phase->Frame_0) matches Some(focused) ==> focused == (
        events[0]->Foreground_0 == start.tracker.hwnd),
    decreases events.len(),
{
    lemma_same_frame_prefix(start, events);
    let before = events.drop_last();
    if before.len() > 0 {
        lemma_same_frame_prefix(start, before);
        lemma_focus_is_kept(start, before);
        assert(before[0] == events[0]);
    }
    lemma_step_keeps_focus(run(start, before), events.last());
}

/// The window's content, and the cursor, are composed only in frames at whose start the window
/// had the focus. In every other frame a blank image takes their place.
pub proof fn law_content_only_when_focused(start: CaptureModel, events: Seq<Event>)
    requires
        start.phase == Phase::Frame(FrameStep::QueryForeground),
        events.len() > 0,
        runs(start, events),
        same_frame(start, events),
    ensures
        ({
            let action = run(start, events).action();
            let focused = events[0]->Foreground_0 == start.tracker.hwnd;
            &&& action == Action::CopySourceToPooled ==> focused
            &&& action is CreateCursorTexture ==> focused
            &&& action is CopyCursor ==> focused
            &&& action == Action::CopyPooledToStaging ==> focused
            &&& action == Action::CopyBlankToStaging ==> !focused
        }),
{
    lemma_focus_is_kept(start, events);
    lemma_same_frame_prefix(start, events);
}

/// Whether a run holds the device context.
pub open spec fn holds_context(s: CaptureModel) -> bool {
    s.phase matches Phase::Frame(step) && {
        ||| step is AcquireTexture
        ||| step is UnlockContext
        ||| holds_texture(s)
    }
}

/// Whether a run holds a texture of the pool.
pub open spec fn holds_texture(s: CaptureModel) -> bool {
    s.phase matches Phase::Frame(step) && {
        ||| step is CastResource
        ||| step is CopySource
        ||| step is DescribeTarget
        ||| step is CreateCursor
        ||| step is CopyCursor
        ||| step is CopyPooled
        ||| step is CopyBlank
        ||| step is ReleaseFrame
        ||| step is ReleaseTexture
    }
}

/// Whether a step does some action.
pub open spec fn does(action: Action) -> spec_fn(CaptureModel, Event) -> bool {
    |s: CaptureModel, event: Event| s.action() == action
}

/// Whether a step takes a texture from the pool.
pub open spec fn takes_texture() -> spec_fn(CaptureModel, Event) -> bool {
    |s: CaptureModel, event: Event| s.action() == Action::AcquireTexture && succeeded(event)
}

/// Whether a system call fails while a texture of the pool is held.
pub open spec fn fails_with_texture() -> spec_fn(CaptureModel, Event) -> bool {
    |s: CaptureModel, event: Event|
        (s.action() == Action::CastResource || s.action() == Action::ReleaseFrame) && !succeeded(
            event,
        )
}

/// Whether an action waits for something, sends something, or ends the run.
pub open spec fn waits(action: Action) -> bool {
    ||| action is Sleep
    ||| action is SignalReady
    ||| action is AcquireFrame
    ||| action is AcquireSample
    ||| action is SetSampleTime
    ||| action is SendSample
    ||| action is Finish
}

/// One, where a condition holds.
pub open spec fn one_if(b: bool) -> int {
    if b {
        1
    } else {
        0
    }
}

/// One step takes the context, or gives it up, exactly by locking and unlocking it.
#[verifier::spinoff_prover]
proof fn lemma_step_context(s: CaptureModel, event: Event)
    requires
        s.accepts(event),
    ensures
        one_if(holds_context(s.next(event))) == one_if(holds_context(s)) + one_if(
            s.action() == Action::LockContext,
        ) - one_if(s.action() == Action::UnlockContext),
{
}

/// What a run does while it holds the context.
#[verifier::spinoff_prover]
proof fn lemma_context_action(s: CaptureModel)
    requires
        holds_context(s),
    ensures
        !waits(s.action()),
{
}

/// Every lock of the device context is followed by its unlock, whatever fails in between. While
/// the context is held nothing is sent, nobody waits, and the run does not end.
#[verifier::spinoff_prover]
#[verifier::rlimit(40)]
pub proof fn law_context_is_unlocked(start: CaptureModel, events: Seq<Event>)
    requires
        !holds_context(start),
        runs(start, events),
    ensures
        count(start, events, does(Action::LockContext)) == count(
            start,
            events,
            does(Action::UnlockContext),
        ) + one_if(holds_context(run(start, events))),
        holds_context(run(start, events)) ==> !waits(run(start, events).action()),
    decreases events.len(),
{
    if holds_context(run(start, events)) {
        lemma_context_action(run(start, events));
    }
    if events.len() > 0 {
        law_context_is_unlocked(start, events.drop_last());
        lemma_step_context(run(start, events.drop_last()), events.last());
    }
}

/// One step takes a texture, gives it back, or loses it to a failed call.
#[verifier::spinoff_prover]
proof fn lemma_step_texture(s: CaptureModel, event: Event)
    requires
        s.accepts(event),
    ensures
        one_if(holds_texture(s.next(event))) == one_if(holds_texture(s)) + one_if(
            takes_texture()(s, event),
        ) - one_if(does(Action::ReleaseTexture)(s, event)) - one_if(
            fails_with_texture()(s, event),
        ),
{
}

/// Every texture that is taken from the pool is given back, but for those of frames in which a
/// system call fails meanwhile. None is held while a frame is sent.
#[verifier::spinoff_prover]
#[verifier::rlimit(40)]
pub proof fn law_textures_are_given_back(start: CaptureModel, events: Seq<Event>)
    requires
        !holds_texture(start),
        runs(start, events),
    ensures
        count(start, events, takes_texture()) == count(
            start,
            events,
            does(Action::ReleaseTexture),
        ) + count(start, events, fails_with_texture()) + one_if(
            holds_texture(run(start, events)),
        ),
        run(start, events).action() == Action::SendSample ==> !holds_texture(run(start, events)),
    decreases events.len(),
{
    if events.len() > 0 {
        law_textures_are_given_back(start, events.drop_last());
        lemma_step_texture(run(start, events.drop_last()), events.last());
    }
}

/// Whether a run holds an image of the desktop.
pub open spec fn holds_image(s: CaptureModel) -> bool {
    s.phase matches Phase::Frame(step) && {
        ||| step matches FrameStep::ReadCursor { has_image: true, .. }
        ||| step matches FrameStep::LockContext { has_image: true, .. }
        ||| step is AcquireTexture
        ||| holds_texture(s) && !(step is ReleaseTexture)
    }
}

/// Whether a step acquires an image of the desktop.
pub open spec fn acquires_image() -> spec_fn(CaptureModel, Event) -> bool {
    |s: CaptureModel, event: Event|
        s.action() is AcquireFrame && event matches Event::Acquired(Ok(true))
}

/// Whether a step releases the image of the desktop.
pub open spec fn releases_image() -> spec_fn(CaptureModel, Event) -> bool {
    |s: CaptureModel, event: Event| s.action() == Action::ReleaseFrame && succeeded(event)
}

/// Whether a call fails while an image of the desktop is held.
pub open spec fn fails_with_image() -> spec_fn(CaptureModel, Event) -> bool {
    |s: CaptureModel, event: Event|
        (s.action() == Action::AcquireTexture || fails_with_texture()(s, event)) && !succeeded(
            event,
        )
}

/// One step acquires an image, releases it, or loses it to a failed call.
#[verifier::spinoff_prover]
proof fn lemma_step_image(s: CaptureModel, event: Event)
    requires
        s.accepts(event),
    ensures
        one_if(holds_image(s.next(event))) == one_if(holds_image(s)) + one_if(
            acquires_image()(s, event),
        ) - one_if(releases_image()(s, event)) - one_if(fails_with_image()(s, event)),
{
}

/// Every image of the desktop that is acquired is released, but for those of frames that fail
/// meanwhile. None is held while a frame is sent.
#[verifier::spinoff_prover]
#[verifier::rlimit(40)]
pub proof fn law_images_are_released(start: CaptureModel, events: Seq<Event>)
    requires
        !holds_image(start),
        runs(start, events),
    ensures
        count(start, events, acquires_image()) == count(start, events, releases_image()) + count(
            start,
            events,
            fails_with_image(),
        ) + one_if(holds_image(run(start, events))),
        run(start, events).action() == Action::SendSample ==> !holds_image(run(start, events)),
    decreases events.len(),
{
    if events.len() > 0 {
        law_images_are_released(start, events.drop_last());
        lemma_step_image(run(start, events.drop_last()), events.last());
    }
}

/// How often an image was acquired and copied, and how often the window's content and the blank
/// image were put in place, by the time that a frame with or without the focus is at a step.
pub open spec fn composed_so_far(
    step: FrameStep,
    focused: bool,
    acquired: int,
    copied: int,
    shown: int,
    blanked: int,
) -> bool {
    match step {
        FrameStep::QueryForeground => nothing_composed(acquired, 0, copied, shown, blanked),
        FrameStep::ReportFocus { .. } => nothing_composed(acquired, 0, copied, shown, blanked),
        FrameStep::AcquireFrame { .. } => nothing_composed(acquired, 0, copied, shown, blanked),
        FrameStep::ReadCursor { has_image, .. } => nothing_composed(
            acquired,
            one_if(has_image),
            copied,
            shown,
            blanked,
        ),
        FrameStep::LockContext { has_image, .. } => nothing_composed(
            acquired,
            one_if(has_image),
            copied,
            shown,
            blanked,
        ),
        FrameStep::AcquireTexture { .. } => nothing_composed(acquired, 1, copied, shown, blanked),
        FrameStep::CastResource { .. } => nothing_composed(acquired, 1, copied, shown, blanked),
        FrameStep::CopySource { .. } => nothing_composed(acquired, 1, copied, shown, blanked),
        FrameStep::CopyBlank => nothing_composed(acquired, 1, copied, shown, blanked),
        FrameStep::DescribeTarget { .. } => image_copied(acquired, copied, shown, blanked),
        FrameStep::CreateCursor { .. } => image_copied(acquired, copied, shown, blanked),
        FrameStep::CopyCursor { .. } => image_copied(acquired, copied, shown, blanked),
        FrameStep::CopyPooled => image_copied(acquired, copied, shown, blanked),
        FrameStep::ReleaseFrame => acquired == 1 && composed(
            focused,
            acquired,
            copied,
            shown,
            blanked,
        ),
        FrameStep::ReleaseTexture => acquired == 1 && composed(
            focused,
            acquired,
            copied,
            shown,
            blanked,
        ),
        FrameStep::UnlockContext { failure: Some(_) } => true,
        FrameStep::UnlockContext { failure: None } => composed(
            focused,
            acquired,
            copied,
            shown,
            blanked,
        ),
        FrameStep::Send { .. } => composed(focused, acquired, copied, shown, blanked),
        FrameStep::ReadClock => composed(focused, acquired, copied, shown, blanked),
        FrameStep::Pause { .. } => composed(focused, acquired, copied, shown, blanked),
    }
}

/// Whether so many images were acquired, and nothing was done with them.
pub open spec fn nothing_composed(
    acquired: int,
    images: int,
    copied: int,
    shown: int,
    blanked: int,
) -> bool {
    acquired == images && copied == 0 && shown == 0 && blanked == 0
}

/// Whether the image that was acquired was copied, once, and nothing was put in place yet.
pub open spec fn image_copied(acquired: int, copied: int, shown: int, blanked: int) -> bool {
    acquired == 1 && copied == 1 && shown == 0 && blanked == 0
}

/// Whether a frame was composed as its focus asks for: an image that was acquired is either copied
/// and shown or replaced by the blank image, once, and without an image nothing is copied or put
/// in place.
pub open spec fn composed(
    focused: bool,
    acquired: int,
    copied: int,
    shown: int,
    blanked: int,
) -> bool {
    &&& 0 <= acquired <= 1
    &&& copied == one_if(focused && acquired == 1)
    &&& shown == one_if(focused && acquired == 1)
    &&& blanked == one_if(!focused && acquired == 1)
}

/// One step keeps the account of what was composed.
#[verifier::spinoff_prover]
#[verifier::rlimit(40)]
proof fn lemma_step_composed(
    s: CaptureModel,
    event: Event,
    focused: bool,
    acquired: int,
    copied: int,
    shown: int,
    blanked: int,
)
    requires
        s.phase is Frame,
        s.accepts(event),
        in_frame(s.next(event)),
        focus_of(s.phase->Frame_0) matches Some(f) ==> f == focused,
        composed_so_far(s.phase->Frame_0, focused, acquired, copied, shown, blanked),
    ensures
        composed_so_far(
            s.next(event).phase->Frame_0,
            focused,
            acquired + one_if(acquires_image()(s, event)),
            copied + one_if(does(Action::CopySourceToPooled)(s, event)),
            shown + one_if(does(Action::CopyPooledToStaging)(s, event)),
            blanked + one_if(does(Action::CopyBlankToStaging)(s, event)),
        ),
{
}

/// The account of what was composed is right throughout a frame.
#[verifier::spinoff_prover]
#[verifier::rlimit(80)]
proof fn lemma_composed_so_far(start: CaptureModel, events: Seq<Event>, focused: bool)
    requires
        start.phase == Phase::Frame(FrameStep::QueryForeground),
        runs(start, events),
        same_frame(start, events),
        events.len() > 0 ==> focused == (events[0]->Foreground_0 == start.tracker.hwnd),
    ensures
        composed_so_far(
            run(start, events).phase->Frame_0,
            focused,
            count(start, events, acquires_image()),
            count(start, events, does(Action::CopySourceToPooled)),
            count(start, events, does(Action::CopyPooledToStaging)),
            count(start, events, does(Action::CopyBlankToStaging)),
        ),
    decreases events.len(),
{
    if events.len() > 0 {
        lemma_same_frame_prefix(start, events);
        let before = events.drop_last();
        if before.len() > 0 {
            lemma_same_frame_prefix(start, before);
            assert(before[0] == events[0]);
            lemma_focus_is_kept(start, before);
        }
        lemma_composed_so_far(start, before, focused);
        lemma_step_composed(
            run(start, before),
            events.last(),
            focused,
            count(start, before, acquires_image()),
            count(start, before, does(Action::CopySourceToPooled)),
            count(start, before, does(Action::CopyPooledToStaging)),
            count(start, before, does(Action::CopyBlankToStaging)),
        );
    }
}

/// What a frame shows by the time it is sent. An image that was acquired while the window had
/// the focus was copied and put in place exactly once, and the blank image not at all; one that
/// was acquired without the focus was replaced by the blank image exactly once, and nothing of it
/// was copied or put in place. Without an image nothing was. Whether cursors are captured makes no
/// difference.
pub proof fn law_what_a_sent_frame_shows(start: CaptureModel, events: Seq<Event>)
    requires
        start.phase == Phase::Frame(FrameStep::QueryForeground),
        events.len() > 0,
        runs(start, events),
        same_frame(start, events),
        run(start, events).phase->Frame_0 is Send,
    ensures
        ({
            let focused = events[0]->Foreground_0 == start.tracker.hwnd;
            let acquired = count(start, events, acquires_image());
            &&& 0 <= acquired <= 1
            &&& count(start, events, does(Action::CopySourceToPooled)) == one_if(
                focused && acquired == 1,
            )
            &&& count(start, events, does(Action::CopyPooledToStaging)) == one_if(
                focused && acquired == 1,
            )
            &&& count(start, events, does(Action::CopyBlankToStaging)) == one_if(
                !focused && acquired == 1,
            )
        }),
{
    lemma_composed_so_far(start, events, events[0]->Foreground_0 == start.tracker.hwnd);
}

/// The order in which a frame is composed. Before the cursor is drawn, and before the composed
/// image is put in place, the image was acquired and copied in that same frame, exactly once; and
/// before it is copied it was acquired.
pub proof fn law_image_is_copied_before_it_is_shown(start: CaptureModel, events: Seq<Event>)
    requires
        start.phase == Phase::Frame(FrameStep::QueryForeground),
        events.len() > 0,
        runs(start, events),
        same_frame(start, events),
    ensures
        ({
            let action = run(start, events).action();
            let acquired = count(start, events, acquires_image());
            let copied = count(start, events, does(Action::CopySourceToPooled));
            let shown = count(start, events, does(Action::CopyPooledToStaging));
            &&& action == Action::CopySourceToPooled ==> acquired == 1 && copied == 0 && shown == 0
            &&& action is CreateCursorTexture ==> acquired == 1 && copied == 1 && shown == 0
            &&& action is CopyCursor ==> acquired == 1 && copied == 1 && shown == 0
            &&& action == Action::CopyPooledToStaging ==> acquired == 1 && copied == 1 && shown == 0
        }),
{
    lemma_composed_so_far(start, events, events[0]->Foreground_0 == start.tracker.hwnd);
    lemma_same_frame_prefix(start, events);
}

/// A frame without an image composes nothing: the context is given up at once, and what was
/// composed last is sent once more.
pub proof fn law_frame_without_image(s: CaptureModel)
    requires
        s.phase is Frame,
        s.phase->Frame_0 matches FrameStep::LockContext { has_image: false, .. },
    ensures
        s.next(Event::Done).action() == Action::UnlockContext,
        s.next(Event::Done).next(Event::Done) == s.at(Phase::Frame(send_step(s.pacing))),
{
    assert(s.next(Event::Done) == s.at(
        Phase::Frame(FrameStep::UnlockContext { failure: None }),
    ));
}

/// A frame is counted only when it ends.
#[verifier::spinoff_prover]
proof fn lemma_step_keeps_frame_count(s: CaptureModel, event: Event)
    requires
        s.phase is Frame,
        in_frame(s.next(event)),
    ensures
        s.next(event).frame_count == s.frame_count,
{
}

/// All samples of a frame, duplicates included, carry the same time: the number of frames
/// completed before it.
#[verifier::spinoff_prover]
#[verifier::rlimit(40)]
pub proof fn law_one_time_per_frame(start: CaptureModel, events: Seq<Event>)
    requires
        start.phase == Phase::Frame(FrameStep::QueryForeground),
        runs(start, events),
        same_frame(start, events),
    ensures
        run(start, events).frame_count == start.frame_count,
        run(start, events).action() matches Action::SetSampleTime { frame_count } ==> frame_count
            == start.frame_count,
    decreases events.len(),
{
    if events.len() > 0 {
        lemma_same_frame_prefix(start, events);
        let before = events.drop_last();
        if before.len() > 0 {
            lemma_same_frame_prefix(start, before);
        }
        law_one_time_per_frame(start, before);
        lemma_step_keeps_frame_count(run(start, before), events.last());
    }
}

/// Sending comes right after stamping.
#[verifier::spinoff_prover]
proof fn lemma_step_to_sending(s: CaptureModel, event: Event)
    requires
        s.accepts(event),
        s.next(event).action() == Action::SendSample,
    ensures
        s.action() == (Action::SetSampleTime { frame_count: s.next(event).frame_count }),
        succeeded(event),
{
}

/// No sample is sent unless it was stamped with the frame count just before.
pub proof fn law_samples_are_stamped(start: CaptureModel, events: Seq<Event>)
    requires
        start.action() != Action::SendSample || events.len() > 0,
        runs(start, events),
        run(start, events).action() == Action::SendSample,
    ensures
        events.len() > 0,
        succeeded(events.last()),
        run(start, events.drop_last()).action() == (Action::SetSampleTime {
            frame_count: run(start, events).frame_count,
        }),
{
    assert(events.len() > 0);
    lemma_step_to_sending(run(start, events.drop_last()), events.last());
}

/// A step that is not a report changes the known focus only to report it.
#[verifier::spinoff_prover]
proof fn lemma_step_focus_report(s: CaptureModel, event: Event)
    requires
        s.accepts(event),
    ensures
        ({
            let t = s.next(event);
            if t.action() is ReportFocus {
                &&& t.last_focus == Some(t.action()->ReportFocus_focused)
                &&& t.last_focus != s.last_focus
            } else {
                t.last_focus == s.last_focus
            }
        }),
{
}

/// The known focus stays what it was until the next report.
#[verifier::spinoff_prover]
#[verifier::rlimit(40)]
proof fn lemma_focus_until_report(start: CaptureModel, events: Seq<Event>)
    requires
        runs(start, events),
        forall|i: int|
            1 <= i <= events.len() ==> !((#[trigger] run(start, events.take(i))).action()
                is ReportFocus),
    ensures
        run(start, events).last_focus == start.last_focus,
    decreases events.len(),
{
    if events.len() > 0 {
        let before = events.drop_last();
        assert forall|i: int| 1 <= i <= before.len() implies !((#[trigger] run(
            start,
            before.take(i),
        )).action() is ReportFocus) by {
            assert(before.take(i) =~= events.take(i));
        }
        lemma_focus_until_report(start, before);
        assert(events.take(events.len() as int) =~= events);
        lemma_step_focus_report(run(start, before), events.last());
    }
}

/// Only changes of the focus are reported: a report says something else than what was known
/// before, and no change goes unreported.
#[verifier::spinoff_prover]
#[verifier::rlimit(40)]
pub proof fn law_reports_are_news(start: CaptureModel, events: Seq<Event>)
    requires
        runs(start, events),
        events.len() > 0,
        run(start, events).action() is ReportFocus,
        forall|i: int|
            1 <= i < events.len() ==> !((#[trigger] run(start, events.take(i))).action()
                is ReportFocus),
    ensures
        start.last_focus != Some(run(start, events).action()->ReportFocus_focused),
        run(start, events).last_focus == Some(run(start, events).action()->ReportFocus_focused),
{
    let before = events.drop_last();
    assert forall|i: int| 1 <= i <= before.len() implies !((#[trigger] run(
        start,
        before.take(i),
    )).action() is ReportFocus) by {
        assert(before.take(i) =~= events.take(i));
    }
    lemma_focus_until_report(start, before);
    lemma_step_focus_report(run(start, before), events.last());
}

} // verus!
