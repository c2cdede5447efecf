//! The looping background animator: a fixed-length sequence of frames
//! cycled at a fixed rate, with no external control. The caller owns the
//! frame resources; this type owns only the cursor into them.

use vstd::arithmetic::div_mod::lemma_fundamental_div_mod_converse;
use vstd::prelude::*;

verus! {

/// Milliseconds each background frame is shown.
pub const BACKGROUND_FRAME_TIME: u32 = 100;

/// A cursor over `frames_count` frames: the current index, the elapsed
/// milliseconds within the current frame, and the fixed frame duration.
#[derive(Clone, Copy, Debug, PartialEq, Eq, Structural)]
pub struct AnimatedBackground {
    pub frames_count: usize,
    pub current: usize,
    pub frame_time: u32,
    pub elapsed: u32,
}

impl AnimatedBackground {
    /// The animator's invariant: at least one frame, the cursor in range,
    /// and the elapsed time strictly below one frame duration.
    pub open spec fn wf(self) -> bool {
        &&& 1 <= self.frames_count <= 1_000_000
        &&& self.current < self.frames_count
        &&& 1 <= self.frame_time <= 1_000_000
        &&& self.elapsed < self.frame_time
    }

    /// How one update with `dt` elapsed milliseconds changes the cursor:
    /// when the accumulated time reaches one frame duration, the index
    /// advances one step modulo the sequence length and the timer resets.
    pub open spec fn step_spec(b: AnimatedBackground, dt: u32) -> AnimatedBackground {
        if b.elapsed + dt >= b.frame_time {
            AnimatedBackground {
                current: ((b.current + 1) % (b.frames_count as int)) as usize,
                elapsed: 0,
                ..b
            }
        } else {
            AnimatedBackground { elapsed: (b.elapsed + dt) as u32, ..b }
        }
    }

    /// A fresh animator over `frames_count` frames, starting on frame zero.
    pub fn new(frames_count: usize) -> (b: AnimatedBackground)
        requires
            1 <= frames_count <= 1_000_000,
        ensures
            b.wf(),
            b.frames_count == frames_count,
            b.current == 0,
            b.frame_time == BACKGROUND_FRAME_TIME,
            b.elapsed == 0,
    {
        AnimatedBackground {
            frames_count,
            current: 0,
            frame_time: BACKGROUND_FRAME_TIME,
            elapsed: 0,
        }
    }

    /// Advance the animation by `dt` elapsed milliseconds.
    pub fn update(&mut self, dt: u32)
        requires
            old(self).wf(),
            dt <= 1_000_000,
        ensures
            final(self).wf(),
            *final(self) == AnimatedBackground::step_spec(*old(self), dt),
    {
        if self.elapsed + dt >= self.frame_time {
            self.current = (self.current + 1) % self.frames_count;
            self.elapsed = 0;
        } else {
            self.elapsed = self.elapsed + dt;
        }
    }

    /// The index of the frame to draw; a pure read.
    pub fn current_frame(&self) -> (i: usize)
        ensures
            i == self.current,
    {
        self.current
    }
}

/// The animator after a whole sequence of updates, one per listed elapsed
/// time.
pub open spec fn background_run_spec(b: AnimatedBackground, dts: Seq<u32>) -> AnimatedBackground
    decreases dts.len(),
{
    if dts.len() == 0 {
        b
    } else {
        background_run_spec(
            AnimatedBackground::step_spec(b, dts[0]),
            dts.subrange(1, dts.len() as int),
        )
    }
}

/// Updates of at least a frame duration each advance the cursor one step
/// per update, modulo the sequence length.
pub proof fn lemma_background_advances(b: AnimatedBackground, dts: Seq<u32>)
    requires
        b.wf(),
        forall|i: int| 0 <= i < dts.len() ==> b.frame_time <= #[trigger] dts[i],
    ensures
        background_run_spec(b, dts).wf(),
        background_run_spec(b, dts).frames_count == b.frames_count,
        background_run_spec(b, dts).frame_time == b.frame_time,
        background_run_spec(b, dts).current == (b.current + dts.len()) % (b.frames_count as int),
    decreases dts.len(),
{
    let k = b.frames_count as int;
    if dts.len() == 0 {
        lemma_mod_of_in_range(b.current as int, k);
    } else {
        let b1 = AnimatedBackground::step_spec(b, dts[0]);
        let rest = dts.subrange(1, dts.len() as int);
        assert(background_run_spec(b, dts) == background_run_spec(b1, rest));
        lemma_mod_of_in_range((b.current + 1) as int % k, k);
        lemma_background_advances(b1, rest);
        lemma_mod_add_step(b.current as int, rest.len() as int, k);
    }
}

/// Law: a loop animator with `K` frames returns to its starting frame after
/// exactly `K` consecutive updates of one frame duration each.
pub proof fn lemma_background_cycles(b: AnimatedBackground, dts: Seq<u32>)
    requires
        b.wf(),
        dts.len() == b.frames_count,
        forall|i: int| 0 <= i < dts.len() ==> #[trigger] dts[i] == b.frame_time,
    ensures
        background_run_spec(b, dts).current == b.current,
{
    lemma_background_advances(b, dts);
    let k = b.frames_count as int;
    lemma_fundamental_div_mod_converse(b.current + k, k, 1, b.current as int);
}

/// A value already in `[0, k)` is its own remainder modulo `k`.
proof fn lemma_mod_of_in_range(c: int, k: int)
    requires
        0 <= c < k,
    ensures
        c % k == c,
{
    lemma_fundamental_div_mod_converse(c, k, 0, c);
}

/// Stepping once and then `n` more times lands on `(c + n + 1) % k`.
proof fn lemma_mod_add_step(c: int, n: int, k: int)
    requires
        0 <= c < k,
        0 <= n,
        1 <= k,
    ensures
        ((c + 1) % k + n) % k == (c + n + 1) % k,
{
    if c + 1 < k {
        lemma_mod_of_in_range(c + 1, k);
    } else {
        lemma_fundamental_div_mod_converse(c + 1, k, 1, 0);
        lemma_mod_sub_multiple(n, c + n + 1, k);
    }
}

/// Dropping one whole multiple of `k` leaves the remainder unchanged.
proof fn lemma_mod_sub_multiple(a: int, b: int, k: int)
    requires
        1 <= k,
        b == a + k,
    ensures
        a % k == b % k,
{
    vstd::arithmetic::div_mod::lemma_fundamental_div_mod(a, k);
    vstd::arithmetic::div_mod::lemma_mod_bound(a, k);
    assert((a / k + 1) * k == (a / k) * k + k) by (nonlinear_arith);
    assert(k * (a / k) == (a / k) * k) by (nonlinear_arith);
    lemma_fundamental_div_mod_converse(b, k, a / k + 1, a % k);
}

} // verus!
