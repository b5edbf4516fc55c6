use vstd::prelude::*;

verus! {

/// The keys that steer the player, as read for one frame.
///
/// `forward` and `back` change the thrust, `left` and `right` the rotation.
/// A `*_pressed` field is true while the key is held; a `*_released` field is
/// true on the frame the key was let go.
pub struct KeyInput {
    pub forward_pressed: bool,
    pub back_pressed: bool,
    pub left_pressed: bool,
    pub right_pressed: bool,
    pub forward_released: bool,
    pub back_released: bool,
}

/// The player's controls, counted in whole steps.
///
/// A thrust step and a rotation step are fixed amounts that the caller
/// scales by; counting steps keeps the state exact however long a key is
/// held.
pub struct Controls {
    pub thrust_steps: i64,
    pub rot_steps: i64,
}

/// `1` if the flag is set, else `0`.
pub open spec fn step_of(b: bool) -> int {
    if b {
        1
    } else {
        0
    }
}

/// `v` held to the range of `i64`.
pub open spec fn clamp_i64(v: int) -> int {
    if v < i64::MIN {
        i64::MIN as int
    } else if v > i64::MAX {
        i64::MAX as int
    } else {
        v
    }
}

/// Net thrust steps that one frame adds: one up for forward, one down for back.
pub open spec fn thrust_delta(k: KeyInput) -> int {
    step_of(k.forward_pressed) - step_of(k.back_pressed)
}

/// Net rotation steps that one frame adds: one up for right, one down for left.
pub open spec fn rot_delta(k: KeyInput) -> int {
    step_of(k.right_pressed) - step_of(k.left_pressed)
}

/// Thrust after one frame: letting go of either thrust key first drops the
/// thrust to zero, then the held keys add their steps.
pub open spec fn next_thrust(thrust: int, k: KeyInput) -> int {
    let base = if k.forward_released || k.back_released {
        0
    } else {
        thrust
    };
    clamp_i64(base + thrust_delta(k))
}

/// Rotation after one frame: the held keys add their steps.
pub open spec fn next_rot(rot: int, k: KeyInput) -> int {
    clamp_i64(rot + rot_delta(k))
}

/// `v + d` held to the range of `i64`, for a step `d` of at most one.
fn add_clamped(v: i64, d: i64) -> (r: i64)
    requires
        -1 <= d <= 1,
    ensures
        r == clamp_i64(v + d),
{
    if d > 0 && v == i64::MAX {
        v
    } else if d < 0 && v == i64::MIN {
        v
    } else {
        v + d
    }
}

impl Controls {
    /// Controls at rest: no thrust, no rotation.
    pub fn new() -> (r: Controls)
        ensures
            r.thrust_steps == 0,
            r.rot_steps == 0,
    {
        Controls { thrust_steps: 0, rot_steps: 0 }
    }

    /// Applies one frame of key input.
    pub fn apply_keys(&mut self, k: &KeyInput)
        ensures
            final(self).thrust_steps == next_thrust(old(self).thrust_steps as int, *k),
            final(self).rot_steps == next_rot(old(self).rot_steps as int, *k),
    {
        if k.forward_released || k.back_released {
            self.thrust_steps = 0;
        }
        let dt: i64 = if k.forward_pressed {
            1
        } else {
            0
        } - if k.back_pressed {
            1
        } else {
            0
        };
        self.thrust_steps = add_clamped(self.thrust_steps, dt);
        let dr: i64 = if k.right_pressed {
            1
        } else {
            0
        } - if k.left_pressed {
            1
        } else {
            0
        };
        self.rot_steps = add_clamped(self.rot_steps, dr);
    }
}

} // verus!
