//! The schedule: when frames are due, how many are sent, and how lateness is made up for.

use vstd::arithmetic::div_mod::lemma_fundamental_div_mod;
use vstd::prelude::*;

use crate::capture::{CaptureModel, Phase};
use crate::frame::{send_step, FrameStep};
use crate::laws::{count, run, runs, succeeded};
use crate::protocol::{Action, Event};
use crate::send::SendStage;
use crate::timing::{elapsed, lemma_rate, nominal_duration, PacingModel, MAX_NANOS};

verus! {

/// Whether a step is the successful sending of a sample.
pub open spec fn sample_sent() -> spec_fn(CaptureModel, Event) -> bool {
    |s: CaptureModel, event: Event| s.action() == Action::SendSample && succeeded(event)
}

/// Whether a frame was sent but is not completed yet.
pub open spec fn awaits_end(s: CaptureModel) -> bool {
    s.phase is Frame && (s.phase->Frame_0 is ReadClock || s.phase->Frame_0 is Pause)
}

/// How many samples the counters of a run stand for: one for each completed frame, one for each
/// duplicate, and one for a frame that was sent but is not completed yet.
pub open spec fn samples_counted(s: CaptureModel) -> int {
    s.frame_count + s.pacing.num_duped + if awaits_end(s) {
        1int
    } else {
        0
    }
}

/// One step counts a sample, and moves the due time on by a frame, exactly when one is sent.
#[verifier::spinoff_prover]
proof fn lemma_step_schedule(s: CaptureModel, event: Event)
    requires
        s.accepts(event),
    ensures
        ({
            let sent = if sample_sent()(s, event) {
                1int
            } else {
                0
            };
            &&& samples_counted(s.next(event)) == samples_counted(s) + sent
            &&& s.next(event).pacing.next_frame_time == s.pacing.next_frame_time + if sent == 1 {
                s.pacing.frame_duration
            } else {
                0
            }
            &&& s.next(event).pacing.frame_duration == s.pacing.frame_duration
        }),
{
}

/// The schedule is kept exactly: the due time moves on by one frame duration for every sample
/// that is sent, and the two counters together account for every sample.
#[verifier::spinoff_prover]
#[verifier::rlimit(40)]
pub proof fn law_schedule(start: CaptureModel, events: Seq<Event>)
    requires
        runs(start, events),
    ensures
        samples_counted(run(start, events)) == samples_counted(start) + count(
            start,
            events,
            sample_sent(),
        ),
        run(start, events).pacing.next_frame_time == start.pacing.next_frame_time
            + start.pacing.frame_duration * count(start, events, sample_sent()),
        run(start, events).pacing.frame_duration == start.pacing.frame_duration,
    decreases events.len(),
{
    let d = start.pacing.frame_duration;
    if events.len() == 0 {
        assert(d * 0 == 0);
    } else {
        let before = events.drop_last();
        law_schedule(start, before);
        lemma_step_schedule(run(start, before), events.last());
        let n = count(start, before, sample_sent());
        assert(d * (n + 1) == d * n + d) by (nonlinear_arith);
    }
}

/// How late a step finds its frame to be.
pub open spec fn lateness(s: CaptureModel, event: Event) -> int {
    if s.phase == Phase::Frame(FrameStep::ReadClock) && event is Time {
        elapsed(event->Time_0 as int, s.pacing.next_frame_time)
    } else {
        0
    }
}

/// How late the frames of a run were, all together.
pub open spec fn total_lateness(start: CaptureModel, events: Seq<Event>) -> int
    decreases events.len(),
{
    if events.len() == 0 {
        0
    } else {
        total_lateness(start, events.drop_last()) + lateness(
            run(start, events.drop_last()),
            events.last(),
        )
    }
}

/// One step adds its lateness to the delay; a duplicate takes a frame off it.
#[verifier::spinoff_prover]
proof fn lemma_step_delay(s: CaptureModel, event: Event)
    requires
        s.accepts(event),
    ensures
        s.next(event).pacing.accumulated_delay == s.pacing.accumulated_delay + lateness(s, event)
            - if s.next(event).pacing.num_duped == s.pacing.num_duped {
            0
        } else {
            s.pacing.frame_duration
        },
        s.next(event).pacing.frame_duration == s.pacing.frame_duration,
        s.pacing.num_duped <= s.next(event).pacing.num_duped <= s.pacing.num_duped + 1,
{
}

/// No lateness is lost and none is invented: the delay is what all frames were late together,
/// less one frame duration for every duplicate.
#[verifier::spinoff_prover]
#[verifier::rlimit(40)]
pub proof fn law_delay_is_accounted_for(start: CaptureModel, events: Seq<Event>)
    requires
        runs(start, events),
    ensures
        run(start, events).pacing.accumulated_delay == start.pacing.accumulated_delay
            + total_lateness(start, events) - start.pacing.frame_duration * (run(
            start,
            events,
        ).pacing.num_duped - start.pacing.num_duped),
        run(start, events).pacing.frame_duration == start.pacing.frame_duration,
    decreases events.len(),
{
    let d = start.pacing.frame_duration;
    if events.len() == 0 {
        assert(d * 0 == 0);
    } else {
        let before = events.drop_last();
        law_delay_is_accounted_for(start, before);
        lemma_step_delay(run(start, before), events.last());
        let n = run(start, before).pacing.num_duped - start.pacing.num_duped;
        assert(d * (n + 1) == d * n + d) by (nonlinear_arith);
    }
}

/// One step never lowers a counter, and raises it by one at most.
#[verifier::spinoff_prover]
proof fn lemma_step_counters(s: CaptureModel, event: Event)
    requires
        s.accepts(event),
    ensures
        s.frame_count <= s.next(event).frame_count <= s.frame_count + 1,
        s.pacing.num_duped <= s.next(event).pacing.num_duped <= s.pacing.num_duped + 1,
{
}

/// Neither the count of frames nor that of duplicates ever goes down. Samples are stamped with
/// the count of frames, so their times never go back.
#[verifier::spinoff_prover]
#[verifier::rlimit(40)]
pub proof fn law_counters_never_fall(start: CaptureModel, events: Seq<Event>)
    requires
        runs(start, events),
    ensures
        start.frame_count <= run(start, events).frame_count,
        start.pacing.num_duped <= run(start, events).pacing.num_duped,
    decreases events.len(),
{
    if events.len() > 0 {
        law_counters_never_fall(start, events.drop_last());
        lemma_step_counters(run(start, events.drop_last()), events.last());
    }
}

/// The times of the samples that a run sent, in order. Each sample carries the frame count.
pub open spec fn sample_times(start: CaptureModel, events: Seq<Event>) -> Seq<u64>
    decreases events.len(),
{
    if events.len() == 0 {
        Seq::empty()
    } else {
        let before = run(start, events.drop_last());
        let times = sample_times(start, events.drop_last());
        if sample_sent()(before, events.last()) {
            times.push(before.frame_count)
        } else {
            times
        }
    }
}

/// Whether times begin at zero, and each equals the one before it or is one more.
pub open spec fn counts_up(times: Seq<u64>) -> bool {
    &&& times.len() > 0 ==> times[0] == 0
    &&& forall|i: int|
        1 <= i < times.len() ==> (#[trigger] times[i] == times[i - 1] || times[i] == times[i - 1]
            + 1)
}

/// Whether the times of the samples so far fit the frame count: the last one is that of the frame
/// in progress or of the one before, and of the frame in progress where it was sent.
pub open spec fn times_fit(times: Seq<u64>, frame_count: u64, sent: bool) -> bool {
    if times.len() == 0 {
        frame_count == 0 && !sent
    } else if sent {
        times.last() == frame_count
    } else {
        times.last() <= frame_count <= times.last() + 1
    }
}

/// One more sample, stamped with the frame count, keeps the times counting up.
proof fn lemma_times_push(times: Seq<u64>, frame_count: u64)
    requires
        counts_up(times),
        times_fit(times, frame_count, false),
    ensures
        counts_up(times.push(frame_count)),
        times_fit(times.push(frame_count), frame_count, true),
        times_fit(times.push(frame_count), frame_count, false),
{
    let more = times.push(frame_count);
    assert forall|i: int| 1 <= i < more.len() implies (#[trigger] more[i] == more[i - 1] || more[i]
        == more[i - 1] + 1) by {
        if i < times.len() {
            assert(times[i] == more[i]);
        }
    }
}

/// A frame is counted only after it was sent, and sending it does not count it.
#[verifier::spinoff_prover]
proof fn lemma_step_frame_count(s: CaptureModel, event: Event)
    requires
        s.accepts(event),
    ensures
        s.next(event).frame_count == s.frame_count || {
            &&& awaits_end(s)
            &&& !awaits_end(s.next(event))
            &&& s.next(event).frame_count == s.frame_count + 1
        },
        sample_sent()(s, event) ==> !awaits_end(s) && s.next(event).frame_count == s.frame_count,
        awaits_end(s.next(event)) ==> awaits_end(s) || sample_sent()(s, event),
        awaits_end(s) && awaits_end(s.next(event)) ==> s.next(event).frame_count == s.frame_count,
{
}

/// From a start at which no frame was sent yet, the times of the samples begin at zero, and each
/// equals the one before it, or is one more. So no frame is skipped: the samples of one frame are
/// followed by those of the next.
#[verifier::spinoff_prover]
#[verifier::rlimit(40)]
pub proof fn law_sample_times_count_up(start: CaptureModel, events: Seq<Event>)
    requires
        !awaits_end(start),
        start.frame_count == 0,
        runs(start, events),
    ensures
        counts_up(sample_times(start, events)),
        sample_times(start, events).len() == count(start, events, sample_sent()),
        times_fit(
            sample_times(start, events),
            run(start, events).frame_count,
            awaits_end(run(start, events)),
        ),
    decreases events.len(),
{
    if events.len() > 0 {
        let before = events.drop_last();
        law_sample_times_count_up(start, before);
        let s = run(start, before);
        lemma_step_frame_count(s, events.last());
        if sample_sent()(s, events.last()) {
            lemma_times_push(sample_times(start, before), s.frame_count);
        }
    }
}

/// The events of a number of samples that are sent without a failure.
pub open spec fn sends(samples: nat) -> Seq<Event> {
    Seq::new(3 * samples, |i: int| Event::Completed(Ok(())))
}

/// The timing state after a number of duplicates.
pub open spec fn after_duplicates(pacing: PacingModel, n: int) -> PacingModel {
    PacingModel {
        next_frame_time: pacing.next_frame_time + pacing.frame_duration * n,
        accumulated_delay: pacing.accumulated_delay - pacing.frame_duration * n,
        num_duped: pacing.num_duped + n,
        ..pacing
    }
}

/// Sending one duplicate takes three calls.
#[verifier::spinoff_prover]
proof fn lemma_one_duplicate(s: CaptureModel)
    requires
        s.phase == Phase::Frame(
            FrameStep::Send { duplicate: true, stage: SendStage::AcquireSample },
        ),
        s.pacing.can_advance(),
        s.pacing.can_count_duplicate(),
    ensures
        ({
            let ok = Event::Completed(Ok(()));
            let (a, b) = (s.next(ok), s.next(ok).next(ok));
            let pacing = s.pacing.after_duplicate();
            &&& s.accepts(ok)
            &&& a.accepts(ok)
            &&& b.accepts(ok)
            &&& b.next(ok) == (CaptureModel {
                pacing,
                phase: Phase::Frame(send_step(pacing)),
                ..s
            })
        }),
{
    let ok = Event::Completed(Ok(()));
    assert(s.next(ok) == s.at(
        Phase::Frame(FrameStep::Send { duplicate: true, stage: SendStage::SetSampleTime }),
    ));
    assert(s.next(ok).next(ok) == s.at(
        Phase::Frame(FrameStep::Send { duplicate: true, stage: SendStage::SendSample }),
    ));
}

/// The run after some of the duplicates that it owes.
#[verifier::spinoff_prover]
#[verifier::rlimit(40)]
proof fn lemma_duplicates(s: CaptureModel, n: nat)
    requires
        s.phase == Phase::Frame(send_step(s.pacing)),
        s.pacing.frame_duration > 0,
        s.pacing.accumulated_delay >= s.pacing.frame_duration * n,
        s.pacing.next_frame_time + s.pacing.frame_duration * n <= MAX_NANOS,
        s.pacing.num_duped + n <= u64::MAX,
    ensures
        runs(s, sends(n)),
        run(s, sends(n)) == (CaptureModel {
            pacing: after_duplicates(s.pacing, n as int),
            phase: Phase::Frame(send_step(after_duplicates(s.pacing, n as int))),
            ..s
        }),
    decreases n,
{
    let d = s.pacing.frame_duration;
    if n == 0 {
        assert(d * 0 == 0);
    } else {
        let m = (n - 1) as nat;
        assert(d * n == d * m + d) by (nonlinear_arith)
            requires
                n == m + 1,
        ;
        lemma_duplicates(s, m);
        let t = run(s, sends(m));
        lemma_one_duplicate(t);
        let e2 = sends(n).drop_last();
        let e1 = e2.drop_last();
        assert(e1.drop_last() =~= sends(m));
        assert(sends(n).last() == Event::Completed(Ok(())));
        assert(e2.last() == Event::Completed(Ok(())));
        assert(e1.last() == Event::Completed(Ok(())));
        assert(run(s, e1) == t.next(Event::Completed(Ok(()))));
        assert(run(s, e2) == run(s, e1).next(Event::Completed(Ok(()))));
        assert(run(s, sends(n)) == run(s, e2).next(Event::Completed(Ok(()))));
        assert(runs(s, e1));
        assert(runs(s, e2));
    }
}

/// A late run catches up within one frame. It sends one duplicate for every whole frame that it
/// is behind, no more and no fewer; afterwards it is behind by the remainder, which is less than
/// a frame, and the frame itself is sent.
#[verifier::spinoff_prover]
pub proof fn law_catch_up(s: CaptureModel)
    requires
        s.phase == Phase::Frame(send_step(s.pacing)),
        s.pacing.frame_duration > 0,
        s.pacing.accumulated_delay >= 0,
        s.pacing.next_frame_time + s.pacing.frame_duration * (s.pacing.accumulated_delay
            / s.pacing.frame_duration) <= MAX_NANOS,
        s.pacing.num_duped + s.pacing.accumulated_delay / s.pacing.frame_duration <= u64::MAX,
    ensures
        ({
            let owed = s.pacing.accumulated_delay / s.pacing.frame_duration;
            let rest = s.pacing.accumulated_delay % s.pacing.frame_duration;
            &&& runs(s, sends(owed as nat))
            &&& run(s, sends(owed as nat)) == (CaptureModel {
                pacing: PacingModel {
                    next_frame_time: s.pacing.next_frame_time + s.pacing.frame_duration * owed,
                    accumulated_delay: rest,
                    num_duped: s.pacing.num_duped + owed,
                    ..s.pacing
                },
                phase: Phase::Frame(
                    FrameStep::Send { duplicate: false, stage: SendStage::AcquireSample },
                ),
                ..s
            })
            &&& 0 <= rest < s.pacing.frame_duration
        }),
{
    let d = s.pacing.frame_duration;
    let a = s.pacing.accumulated_delay;
    lemma_fundamental_div_mod(a, d);
    assert(a / d >= 0) by (nonlinear_arith)
        requires
            a >= 0,
            d > 0,
    ;
    assert(0 <= a % d < d) by (nonlinear_arith)
        requires
            d > 0,
    ;
    lemma_duplicates(s, (a / d) as nat);
}

/// A frame that ends in time is followed by a pause that ends exactly when the next frame is
/// due, and its run is no further behind than before. One that ends late is followed by no pause,
/// and its run is further behind by exactly as much as it is late.
pub proof fn law_frame_end(s: CaptureModel, now: u128)
    requires
        s.phase == Phase::Frame(FrameStep::ReadClock),
        s.accepts(Event::Time(now)),
        0 <= s.pacing.next_frame_time <= MAX_NANOS,
    ensures
        now <= s.pacing.next_frame_time ==> {
            &&& s.next(Event::Time(now)).action() matches Action::Sleep { nanos } && now + nanos
                == s.pacing.next_frame_time
            &&& s.next(Event::Time(now)).pacing == s.pacing
        },
        now > s.pacing.next_frame_time ==> {
            &&& s.next(Event::Time(now)).phase == Phase::Poll
            &&& s.next(Event::Time(now)).frame_count == s.frame_count + 1
            &&& s.next(Event::Time(now)).pacing.accumulated_delay == s.pacing.accumulated_delay + (
            now - s.pacing.next_frame_time)
        },
{
}

/// A frame lasts as long as the rate asks for, to within a nanosecond.
pub proof fn law_frame_rate(fps_num: u32, fps_den: u32)
    requires
        fps_num > 0,
    ensures
        nominal_duration(fps_num, fps_den) * fps_num <= 1000000000 * fps_den,
        1000000000 * fps_den < (nominal_duration(fps_num, fps_den) + 1) * fps_num,
{
    lemma_rate(fps_num, fps_den);
}

} // verus!
