//! Pacing: when the next frame is due, and how far the run has fallen behind.

use vstd::arithmetic::div_mod::lemma_fundamental_div_mod;
use vstd::prelude::*;

verus! {

/// Nanoseconds in the longest time span that can be expressed.
pub const MAX_NANOS: u128 = 18446744073709551615999999999;

/// Nanoseconds in a second.
pub const NANOS_PER_SECOND: u64 = 1000000000;

/// The time that lies between two points, or nothing when they are out of order.
pub open spec fn elapsed(later: int, earlier: int) -> int {
    if later > earlier {
        later - earlier
    } else {
        0
    }
}

/// The time from `earlier` to `later`, zero when `later` is not later.
pub fn duration_since(later: u128, earlier: u128) -> (d: u128)
    ensures
        d == elapsed(later as int, earlier as int),
        later >= earlier ==> d == later - earlier,
        later <= earlier ==> d == 0,
{
    if later > earlier {
        later - earlier
    } else {
        0
    }
}

/// The time that one frame takes at `fps_num / fps_den` frames per second, rounded down.
pub open spec fn nominal_duration(fps_num: u32, fps_den: u32) -> int {
    (NANOS_PER_SECOND * fps_den) / (fps_num as int)
}

/// The frame duration is the largest whole number of nanoseconds of which `fps_num` frames fit
/// into `fps_den` seconds.
pub(crate) proof fn lemma_rate(fps_num: u32, fps_den: u32)
    requires
        fps_num > 0,
    ensures
        nominal_duration(fps_num, fps_den) * fps_num <= 1000000000 * fps_den,
        1000000000 * fps_den < (nominal_duration(fps_num, fps_den) + 1) * fps_num,
{
    let x = (NANOS_PER_SECOND * fps_den) as int;
    let n = fps_num as int;
    lemma_fundamental_div_mod(x, n);
    assert(0 <= x % n < n) by (nonlinear_arith)
        requires
            n > 0,
    ;
    assert(n * (x / n) == (x / n) * n) by (nonlinear_arith);
    assert((x / n + 1) * n == (x / n) * n + n) by (nonlinear_arith);
}

/// Computes the time that one frame takes at `fps_num / fps_den` frames per second.
pub fn frame_duration(fps_num: u32, fps_den: u32) -> (d: u128)
    requires
        fps_num > 0,
    ensures
        d == nominal_duration(fps_num, fps_den),
        d * fps_num <= 1000000000 * fps_den < (d + 1) * fps_num,
        d <= MAX_NANOS,
{
    proof {
        lemma_rate(fps_num, fps_den);
    }
    assert(NANOS_PER_SECOND * fps_den <= u64::MAX) by (nonlinear_arith)
        requires
            NANOS_PER_SECOND == 1000000000u64,
            fps_den <= u32::MAX,
    ;
    let nanos: u64 = NANOS_PER_SECOND * fps_den as u64 / fps_num as u64;
    nanos as u128
}

/// Settles the timing of a frame that was just sent.
///
/// A frame that ended after `next_frame_time` adds its lateness to `accumulated_delay`, and
/// nothing is to be waited for. One that ended in time leaves the delay alone, and the result is
/// how long to sleep until `next_frame_time`.
pub fn handle_frame_timing(
    current_time: u128,
    next_frame_time: u128,
    accumulated_delay: &mut u128,
) -> (sleep: Option<u128>)
    requires
        *old(accumulated_delay) + elapsed(current_time as int, next_frame_time as int) <= MAX_NANOS,
    ensures
        *final(accumulated_delay) == *old(accumulated_delay) + elapsed(
            current_time as int,
            next_frame_time as int,
        ),
        current_time > next_frame_time ==> *final(accumulated_delay) == *old(accumulated_delay) + (
        current_time - next_frame_time),
        current_time <= next_frame_time ==> *final(accumulated_delay) == *old(accumulated_delay),
        current_time > next_frame_time ==> sleep is None,
        current_time <= next_frame_time ==> sleep == Some(
            (next_frame_time - current_time) as u128,
        ),
{
    if current_time > next_frame_time {
        let overrun: u128 = duration_since(current_time, next_frame_time);
        *accumulated_delay = *accumulated_delay + overrun;
        None
    } else {
        Some(duration_since(next_frame_time, current_time))
    }
}

/// The timing state of a run.
#[derive(Clone, Copy, Debug, PartialEq, Eq, Structural)]
pub struct Pacing {
    /// When the frame in progress should be done.
    pub next_frame_time: u128,
    /// How long a frame lasts.
    pub frame_duration: u128,
    /// How much lateness has not been made up for yet.
    pub accumulated_delay: u128,
    /// How many frames were sent again to make up for lateness.
    pub num_duped: u64,
}

/// The timing state of a run, in unbounded numbers.
pub struct PacingModel {
    pub next_frame_time: int,
    pub frame_duration: int,
    pub accumulated_delay: int,
    pub num_duped: int,
}

impl View for Pacing {
    type V = PacingModel;

    open spec fn view(&self) -> PacingModel {
        PacingModel {
            next_frame_time: self.next_frame_time as int,
            frame_duration: self.frame_duration as int,
            accumulated_delay: self.accumulated_delay as int,
            num_duped: self.num_duped as int,
        }
    }
}

impl PacingModel {
    /// The timing state at the start of a run.
    pub open spec fn starting_at(start: int, frame_duration: int) -> Self {
        PacingModel {
            next_frame_time: start,
            frame_duration,
            accumulated_delay: 0,
            num_duped: 0,
        }
    }

    /// Whether the run is at least one whole frame behind.
    pub open spec fn owes_duplicate(self) -> bool {
        self.accumulated_delay >= self.frame_duration
    }

    /// After a frame was sent: the next one is due one frame later.
    pub open spec fn after_frame(self) -> Self {
        PacingModel { next_frame_time: self.next_frame_time + self.frame_duration, ..self }
    }

    /// After a frame was sent again: one frame of lateness is made up for.
    pub open spec fn after_duplicate(self) -> Self {
        PacingModel {
            next_frame_time: self.next_frame_time + self.frame_duration,
            accumulated_delay: self.accumulated_delay - self.frame_duration,
            num_duped: self.num_duped + 1,
            ..self
        }
    }

    /// After the clock was read at the end of a frame.
    pub open spec fn after_clock(self, now: int) -> Self {
        PacingModel {
            accumulated_delay: self.accumulated_delay + elapsed(now, self.next_frame_time),
            ..self
        }
    }

    /// Whether the due time of one more frame can be expressed.
    pub open spec fn can_advance(self) -> bool {
        self.next_frame_time + self.frame_duration <= MAX_NANOS
    }

    /// Whether one more duplicate can be counted.
    pub open spec fn can_count_duplicate(self) -> bool {
        self.num_duped < u64::MAX
    }

    /// Whether the delay can be expressed after the clock was read.
    pub open spec fn can_settle(self, now: int) -> bool {
        self.accumulated_delay + elapsed(now, self.next_frame_time) <= MAX_NANOS
    }
}

impl Pacing {
    /// The timing state of a run whose first frame is due at `start`.
    pub fn new(start: u128, frame_duration: u128) -> (p: Self)
        ensures
            p@ == PacingModel::starting_at(start as int, frame_duration as int),
            p.next_frame_time == start,
            p.frame_duration == frame_duration,
            p.accumulated_delay == 0,
            p.num_duped == 0,
    {
        Pacing { next_frame_time: start, frame_duration, accumulated_delay: 0, num_duped: 0 }
    }

    /// Whether the run is at least one whole frame behind.
    pub fn owes_duplicate(&self) -> (b: bool)
        ensures
            b == self@.owes_duplicate(),
            b <==> self.accumulated_delay >= self.frame_duration,
    {
        self.accumulated_delay >= self.frame_duration
    }

    /// Moves on by one frame.
    pub fn record_frame(&mut self)
        requires
            old(self)@.can_advance(),
        ensures
            final(self)@ == old(self)@.after_frame(),
            final(self).next_frame_time == old(self).next_frame_time + old(self).frame_duration,
            final(self).frame_duration == old(self).frame_duration,
            final(self).accumulated_delay == old(self).accumulated_delay,
            final(self).num_duped == old(self).num_duped,
    {
        self.next_frame_time = self.next_frame_time + self.frame_duration;
    }

    /// Moves on by one frame that was sent to catch up.
    pub fn record_duplicate(&mut self)
        requires
            old(self)@.owes_duplicate(),
            old(self)@.can_advance(),
            old(self)@.can_count_duplicate(),
        ensures
            final(self)@ == old(self)@.after_duplicate(),
            final(self).next_frame_time == old(self).next_frame_time + old(self).frame_duration,
            final(self).frame_duration == old(self).frame_duration,
            final(self).accumulated_delay == old(self).accumulated_delay - old(self).frame_duration,
            final(self).num_duped == old(self).num_duped + 1,
    {
        self.next_frame_time = self.next_frame_time + self.frame_duration;
        self.accumulated_delay = self.accumulated_delay - self.frame_duration;
        self.num_duped = self.num_duped + 1;
    }

    /// Whether the due time of one more frame can be expressed.
    pub fn can_advance(&self) -> (b: bool)
        ensures
            b == self@.can_advance(),
            b <==> self.next_frame_time + self.frame_duration <= 18446744073709551615999999999,
    {
        self.frame_duration <= MAX_NANOS && self.next_frame_time <= MAX_NANOS - self.frame_duration
    }

    /// Whether one more duplicate can be counted.
    pub fn can_count_duplicate(&self) -> (b: bool)
        ensures
            b == self@.can_count_duplicate(),
            b <==> self.num_duped < u64::MAX,
    {
        self.num_duped < u64::MAX
    }

    /// Whether the delay can be expressed once the clock reads `now`.
    pub fn can_settle(&self, now: u128) -> (b: bool)
        ensures
            b == self@.can_settle(now as int),
            now > self.next_frame_time ==> (b <==> self.accumulated_delay + (now
                - self.next_frame_time) <= 18446744073709551615999999999),
            now <= self.next_frame_time ==> (b <==> self.accumulated_delay
                <= 18446744073709551615999999999),
    {
        let overrun: u128 = duration_since(now, self.next_frame_time);
        overrun <= MAX_NANOS && self.accumulated_delay <= MAX_NANOS - overrun
    }
}

} // verus!
