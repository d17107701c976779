//! Frame pacing: a timer that says when the next frame is due.
//!
//! Times are nanoseconds of a monotonic clock, read by the caller and handed
//! in; the timer only decides.

use vstd::prelude::*;

verus! {

/// Nanoseconds in a second.
pub const NANOS_PER_SEC: u64 = 1_000_000_000;

/// The frame duration, in nanoseconds, for a target frame rate.
pub open spec fn frame_duration_ns(fps: u32) -> nat
    recommends
        fps > 0,
{
    (NANOS_PER_SEC / (fps as u64)) as nat
}

/// Frame timer state: the target frame duration and the time of the last
/// rendered frame.
pub struct FrameTimerView {
    pub target_duration_ns: u64,
    pub last_frame_ns: u64,
}

impl FrameTimerView {
    /// Time since the last frame at `now` (never negative).
    pub open spec fn elapsed(self, now: u64) -> nat {
        if now >= self.last_frame_ns {
            (now - self.last_frame_ns) as nat
        } else {
            0
        }
    }

    /// Whether a frame is due at `now`.
    pub open spec fn due(self, now: u64) -> bool {
        self.elapsed(now) >= self.target_duration_ns
    }

    /// Time left until the next frame is due at `now` (zero once it is due).
    pub open spec fn wait(self, now: u64) -> nat {
        if self.elapsed(now) >= self.target_duration_ns {
            0
        } else {
            (self.target_duration_ns - self.elapsed(now)) as nat
        }
    }
}

/// A timer that fires at the display refresh rate, for frame pacing.
pub struct FrameTimer {
    target_duration_ns: u64,
    last_frame_ns: u64,
}

impl View for FrameTimer {
    type V = FrameTimerView;

    closed spec fn view(&self) -> FrameTimerView {
        FrameTimerView { target_duration_ns: self.target_duration_ns, last_frame_ns: self.last_frame_ns }
    }
}

impl FrameTimer {
    /// Creates a frame timer for the given target frame rate. No frame has
    /// been rendered yet (the last frame counts as time 0).
    pub fn new(target_fps: u32) -> (r: Self)
        requires
            target_fps > 0,
        ensures
            r@.target_duration_ns == frame_duration_ns(target_fps),
            r@.last_frame_ns == 0,
    {
        Self { target_duration_ns: NANOS_PER_SEC / (target_fps as u64), last_frame_ns: 0 }
    }

    /// Sets the target frame rate; the time of the last frame is kept.
    pub fn set_target_fps(&mut self, fps: u32)
        requires
            fps > 0,
        ensures
            final(self)@.target_duration_ns == frame_duration_ns(fps),
            final(self)@.last_frame_ns == old(self)@.last_frame_ns,
    {
        self.target_duration_ns = NANOS_PER_SEC / (fps as u64);
    }

    /// The target frame duration in nanoseconds.
    pub fn target_duration_ns(&self) -> (r: u64)
        ensures
            r == self@.target_duration_ns,
    {
        self.target_duration_ns
    }

    /// The time of the last rendered frame.
    pub fn last_frame_ns(&self) -> (r: u64)
        ensures
            r == self@.last_frame_ns,
    {
        self.last_frame_ns
    }

    /// Whether it is time for the next frame at `now_ns`, a reading of the
    /// monotonic clock taken no earlier than the last frame.
    pub fn should_render(&self, now_ns: u64) -> (r: bool)
        requires
            self@.last_frame_ns <= now_ns,
        ensures
            r == self@.due(now_ns),
    {
        now_ns - self.last_frame_ns >= self.target_duration_ns
    }

    /// Marks that a frame was rendered at `now_ns`.
    pub fn frame_rendered(&mut self, now_ns: u64)
        ensures
            final(self)@.last_frame_ns == now_ns,
            final(self)@.target_duration_ns == old(self)@.target_duration_ns,
    {
        self.last_frame_ns = now_ns;
    }

    /// Nanoseconds from `now_ns` until the next frame is due (zero when it is
    /// already due).
    pub fn time_until_next_frame(&self, now_ns: u64) -> (r: u64)
        ensures
            r == self@.wait(now_ns),
    {
        let elapsed = now_ns.saturating_sub(self.last_frame_ns);
        self.target_duration_ns.saturating_sub(elapsed)
    }
}

/// A frame is due exactly when there is no time left to wait for it.
pub proof fn lemma_due_iff_no_wait(t: FrameTimerView, now: u64)
    ensures
        t.due(now) <==> t.wait(now) == 0,
        t.wait(now) <= t.target_duration_ns,
{
}

/// Right after a frame is rendered at `now`, the next one is a whole frame
/// duration away, so no frame is due at that instant.
pub proof fn lemma_no_frame_due_right_after_render(t: FrameTimerView, now: u64)
    requires
        t.last_frame_ns == now,
        t.target_duration_ns > 0,
    ensures
        !t.due(now),
        t.wait(now) == t.target_duration_ns,
{
}

/// Once a frame is due it stays due as time goes on.
pub proof fn lemma_due_stays_due(t: FrameTimerView, now: u64, later: u64)
    requires
        t.due(now),
        now <= later,
    ensures
        t.due(later),
{
}

/// A higher frame rate never gives a longer frame duration.
pub proof fn lemma_higher_fps_shorter_frames(slow: u32, fast: u32)
    requires
        0 < slow <= fast,
    ensures
        frame_duration_ns(fast) <= frame_duration_ns(slow),
{
    vstd::arithmetic::div_mod::lemma_div_is_ordered_by_denominator(NANOS_PER_SEC as int, slow as int, fast as int);
}

/// Every frame rate up to one billion frames per second has a positive frame
/// duration.
pub proof fn lemma_frame_duration_positive(fps: u32)
    requires
        0 < fps <= NANOS_PER_SEC,
    ensures
        frame_duration_ns(fps) > 0,
{
    vstd::arithmetic::div_mod::lemma_div_is_ordered_by_denominator(NANOS_PER_SEC as int, fps as int, NANOS_PER_SEC as int);
}

/// The frame duration is the whole number of nanoseconds in one frame: `fps`
/// frames of it fit in a second, one nanosecond more each would not.
pub proof fn lemma_frame_duration_fits_second(fps: u32)
    requires
        fps > 0,
    ensures
        frame_duration_ns(fps) * fps <= 1_000_000_000,
        (frame_duration_ns(fps) + 1) * fps > 1_000_000_000,
{
    let d = 1_000_000_000int / (fps as int);
    assert(d * fps <= 1_000_000_000 && (d + 1) * fps > 1_000_000_000) by (nonlinear_arith)
        requires
            fps > 0,
            d == 1_000_000_000int / (fps as int),
    ;
}

} // verus!
