//! The ramping state machine of the actuation loop.
//!
//! On every tick the actuator adopts the newest published target, if any,
//! and decides what to send to the backlight device: nothing when the last
//! applied brightness is already within one step of the target, the target
//! itself when nothing has been applied yet this session, and otherwise a
//! value exactly one step closer to the target. A failed device write ends
//! the session; the supervisor starts a fresh one, whose first application
//! again jumps straight to the target.

use crate::mapper::{MAX_BRIGHTNESS, MIN_BRIGHTNESS};
use vstd::prelude::*;

verus! {

/// Size of one ramp step.
pub const STEP: u32 = 10;

/// Tick interval of the actuation loop, in milliseconds.
pub const TICK_MS: u64 = 50;

/// Distance between two brightness values.
pub open spec fn dist(a: int, b: int) -> int {
    if a >= b {
        a - b
    } else {
        b - a
    }
}

/// The target after a tick that received `incoming`: the newest published
/// value wins, and without one the old target stands.
pub open spec fn updated_target(old_target: u32, incoming: Option<u32>) -> u32 {
    match incoming {
        Some(t) => t,
        None => old_target,
    }
}

/// The brightness a tick applies when the last applied value is `current`
/// and the target is `target`: the target itself on the first application,
/// nothing within one step of the target, otherwise one step toward it.
pub open spec fn next_apply(current: Option<u32>, target: u32) -> Option<u32> {
    match current {
        None => Some(target),
        Some(c) => if dist(c as int, target as int) < STEP as int {
            None
        } else if c > target {
            Some((c - STEP) as u32)
        } else {
            Some((c + STEP) as u32)
        },
    }
}

/// State of one actuation session.
pub struct Actuator {
    /// Brightness last applied to the device this session; `None` until the
    /// first application.
    pub current: Option<u32>,
    /// Latest published target the ramp converges toward.
    pub target: u32,
}

impl Actuator {
    /// The target and any applied brightness lie within the device band.
    pub open spec fn wf(self) -> bool {
        &&& MIN_BRIGHTNESS <= self.target <= MAX_BRIGHTNESS
        &&& (self.current matches Some(c) ==> MIN_BRIGHTNESS <= c <= MAX_BRIGHTNESS)
    }

    /// Start a session that converges toward `first_target`; nothing has
    /// been applied yet, so the first tick will jump straight to the target.
    pub fn new(first_target: u32) -> (a: Actuator)
        requires
            MIN_BRIGHTNESS <= first_target <= MAX_BRIGHTNESS,
        ensures
            a.wf(),
            a.current is None,
            a.target == first_target,
    {
        Actuator { current: None, target: first_target }
    }

    /// One tick of the actuation loop: adopt the newest published target, if
    /// any, and return the brightness to send to the device, or `None` to
    /// skip this tick.
    pub fn tick(&mut self, incoming: Option<u32>) -> (apply: Option<u32>)
        requires
            old(self).wf(),
            (incoming matches Some(t) ==> MIN_BRIGHTNESS <= t <= MAX_BRIGHTNESS),
        ensures
            final(self).wf(),
            final(self).target == updated_target(old(self).target, incoming),
            apply == next_apply(old(self).current, final(self).target),
            (match apply {
                Some(n) => final(self).current == Some(n),
                None => final(self).current == old(self).current,
            }),
            // an applied brightness never moves by more than one step, and
            // each step closes the gap to the target by exactly one step
            (match (old(self).current, apply) {
                (Some(c), Some(n)) => dist(c as int, n as int) == STEP as int && dist(
                    n as int,
                    final(self).target as int,
                ) + STEP as int == dist(c as int, final(self).target as int),
                _ => true,
            }),
            // the ramp is idle exactly when a brightness has been applied
            // and already lies within one step of the adopted target
            apply is None <==> (old(self).current matches Some(c) && dist(
                c as int,
                updated_target(old(self).target, incoming) as int,
            ) < STEP as int),
    {
        if let Some(t) = incoming {
            self.target = t;
        }
        match self.current {
            None => {
                self.current = Some(self.target);
                Some(self.target)
            },
            Some(c) => {
                let t = self.target;
                let diff: u32 = if c >= t {
                    c - t
                } else {
                    t - c
                };
                if diff < STEP {
                    None
                } else if c > t {
                    let n: u32 = c - STEP;
                    self.current = Some(n);
                    Some(n)
                } else {
                    let n: u32 = c + STEP;
                    self.current = Some(n);
                    Some(n)
                }
            },
        }
    }
}

} // verus!
