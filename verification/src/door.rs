//! The door: a four-state toggle animator. It is created closed, a toggle
//! starts it opening or closing, and elapsed time alone steps the frame
//! counter until the transition completes; a toggle during a transition is
//! ignored, so an animation in progress is never interrupted.

use vstd::prelude::*;

use crate::geometry::Vec2i;

verus! {

/// Milliseconds each animation frame is shown, matching the game's
/// tenth-of-a-second frame rate.
pub const DOOR_FRAME_TIME: u32 = 100;

#[derive(Clone, Copy, Debug, PartialEq, Eq, Structural)]
pub enum DoorState {
    Closed,
    Opening,
    Open,
    Closing,
}

/// A door with a world position, an animation state, and a frame counter
/// stepped by a millisecond timer.
#[derive(Clone, Copy, Debug, PartialEq, Eq, Structural)]
pub struct Door {
    pub position: Vec2i,
    pub state: DoorState,
    pub frame: usize,
    pub frames_count: usize,
    pub animation_timer: u32,
    pub frame_time: u32,
}

impl Door {
    /// The door's invariant: a positive frame count and frame duration, the
    /// frame in range, and the timer strictly below one frame duration (the
    /// timer resets whenever it fills, in every state).
    pub open spec fn wf(self) -> bool {
        &&& 1 <= self.frames_count <= 100_000
        &&& self.frame < self.frames_count
        &&& 1 <= self.frame_time <= 1_000_000
        &&& self.animation_timer < self.frame_time
    }

    /// How one update with `dt` elapsed milliseconds changes the door: the
    /// timer accumulates, and each time it fills one frame duration it
    /// resets and the current transition advances one frame step, completing
    /// into `Open` or `Closed` at the ends.
    pub open spec fn step_spec(d: Door, dt: u32) -> Door {
        if d.animation_timer + dt >= d.frame_time {
            if d.state == DoorState::Opening {
                if d.frame < d.frames_count - 1 {
                    Door { animation_timer: 0, frame: (d.frame + 1) as usize, ..d }
                } else {
                    Door { animation_timer: 0, state: DoorState::Open, ..d }
                }
            } else if d.state == DoorState::Closing {
                if d.frame > 0 {
                    Door { animation_timer: 0, frame: (d.frame - 1) as usize, ..d }
                } else {
                    Door { animation_timer: 0, state: DoorState::Closed, ..d }
                }
            } else {
                Door { animation_timer: 0, ..d }
            }
        } else {
            Door { animation_timer: (d.animation_timer + dt) as u32, ..d }
        }
    }

    /// A new door at `position` with `frames_count` animation frames,
    /// starting closed on frame zero.
    pub fn new(position: Vec2i, frames_count: usize) -> (d: Door)
        requires
            1 <= frames_count <= 100_000,
        ensures
            d.wf(),
            d.position == position,
            d.state == DoorState::Closed,
            d.frame == 0,
            d.frames_count == frames_count,
            d.animation_timer == 0,
            d.frame_time == DOOR_FRAME_TIME,
    {
        Door {
            position,
            state: DoorState::Closed,
            frame: 0,
            frames_count,
            animation_timer: 0,
            frame_time: DOOR_FRAME_TIME,
        }
    }

    /// Advance the animation by `dt` elapsed milliseconds.
    pub fn update(&mut self, dt: u32)
        requires
            old(self).wf(),
            dt <= 1_000_000,
        ensures
            final(self).wf(),
            *final(self) == Door::step_spec(*old(self), dt),
    {
        if self.animation_timer + dt >= self.frame_time {
            self.animation_timer = 0;
            if self.state == DoorState::Opening {
                if self.frame < self.frames_count - 1 {
                    self.frame = self.frame + 1;
                } else {
                    self.state = DoorState::Open;
                }
            } else if self.state == DoorState::Closing {
                if self.frame > 0 {
                    self.frame = self.frame - 1;
                } else {
                    self.state = DoorState::Closed;
                }
            }
        } else {
            self.animation_timer = self.animation_timer + dt;
        }
    }

    /// Start opening a closed door or closing an open one; during a
    /// transition the call changes nothing, so the state and frame are
    /// exactly as before.
    pub fn toggle(&mut self)
        ensures
            old(self).state == DoorState::Closed ==> *final(self) == (Door {
                state: DoorState::Opening,
                ..*old(self)
            }),
            old(self).state == DoorState::Open ==> *final(self) == (Door {
                state: DoorState::Closing,
                ..*old(self)
            }),
            old(self).state == DoorState::Opening || old(self).state == DoorState::Closing
                ==> *final(self) == *old(self),
            final(self).frame == old(self).frame,
            final(self).wf() == old(self).wf(),
    {
        if self.state == DoorState::Closed {
            self.state = DoorState::Opening;
        } else if self.state == DoorState::Open {
            self.state = DoorState::Closing;
        }
    }

    /// Whether a transition is in progress; only then does `update` move
    /// the frame counter.
    pub fn is_animating(&self) -> (r: bool)
        ensures
            r == (self.state == DoorState::Opening || self.state == DoorState::Closing),
    {
        match self.state {
            DoorState::Opening => true,
            DoorState::Closing => true,
            _ => false,
        }
    }
}

/// The door after a whole sequence of updates, one per listed elapsed time.
pub open spec fn door_run_spec(d: Door, dts: Seq<u32>) -> Door
    decreases dts.len(),
{
    if dts.len() == 0 {
        d
    } else {
        door_run_spec(Door::step_spec(d, dts[0]), dts.subrange(1, dts.len() as int))
    }
}

/// Law: a door part-way through opening, given one update of at least a
/// frame duration for each remaining frame step, ends exactly open with
/// the frame pinned to the last one.
pub proof fn lemma_full_opening_run(d: Door, dts: Seq<u32>)
    requires
        d.wf(),
        d.state == DoorState::Opening,
        dts.len() == d.frames_count - d.frame,
        forall|i: int| 0 <= i < dts.len() ==> d.frame_time <= #[trigger] dts[i],
    ensures
        door_run_spec(d, dts).state == DoorState::Open,
        door_run_spec(d, dts).frame == d.frames_count - 1,
    decreases dts.len(),
{
    let d1 = Door::step_spec(d, dts[0]);
    let rest = dts.subrange(1, dts.len() as int);
    assert(door_run_spec(d, dts) == door_run_spec(d1, rest));
    if d.frame < d.frames_count - 1 {
        assert(d1.state == DoorState::Opening && d1.frame == d.frame + 1 && d1.wf());
        lemma_full_opening_run(d1, rest);
    } else {
        assert(d1.state == DoorState::Open && d1.frame == d.frames_count - 1);
        assert(rest.len() == 0);
        assert(door_run_spec(d1, rest) == d1);
    }
}

/// Law: the mirror image for closing: one update of at least a frame
/// duration for each frame step remaining to zero ends exactly closed on
/// frame zero.
pub proof fn lemma_full_closing_run(d: Door, dts: Seq<u32>)
    requires
        d.wf(),
        d.state == DoorState::Closing,
        dts.len() == d.frame + 1,
        forall|i: int| 0 <= i < dts.len() ==> d.frame_time <= #[trigger] dts[i],
    ensures
        door_run_spec(d, dts).state == DoorState::Closed,
        door_run_spec(d, dts).frame == 0,
    decreases dts.len(),
{
    let d1 = Door::step_spec(d, dts[0]);
    let rest = dts.subrange(1, dts.len() as int);
    assert(door_run_spec(d, dts) == door_run_spec(d1, rest));
    if d.frame > 0 {
        assert(d1.state == DoorState::Closing && d1.frame == d.frame - 1 && d1.wf());
        lemma_full_closing_run(d1, rest);
    } else {
        assert(d1.state == DoorState::Closed && d1.frame == 0);
        assert(rest.len() == 0);
        assert(door_run_spec(d1, rest) == d1);
    }
}

} // verus!
