//! The offset animation set: one scalar tween per child slot.
//!
//! Each tween eases linearly from a start value toward a target over
//! [`ANIMATION_DURATION_MS`] milliseconds. Retargeting starts the new
//! transition from the tween's current interpolated value, not from zero,
//! so a retarget mid-flight never snaps visually; retargeting to the
//! current target changes nothing, so an in-flight transition keeps easing.

use vstd::prelude::*;
use vstd::arithmetic::div_mod::{lemma_div_is_ordered, lemma_div_multiples_vanish,
    lemma_div_pos_is_pos};
use vstd::arithmetic::mul::lemma_mul_inequality;

use crate::geometry::MAX_COORD;
use crate::time::time_ok;

verus! {

/// How long one transition takes, in milliseconds.
pub const ANIMATION_DURATION_MS: i64 = 100;

/// Largest magnitude of a tween value.
pub const MAX_TWEEN: i64 = 2 * MAX_COORD;

/// A tween value the animation set can work with.
pub open spec fn value_ok(v: int) -> bool {
    -MAX_TWEEN <= v <= MAX_TWEEN
}

/// One scalar tween: it eases from `origin` (its value when the current
/// transition started at `started_at`) toward `target`.
#[derive(Clone, Copy, Debug, PartialEq, Eq, Structural)]
pub struct Animation {
    /// The value the current transition started from.
    pub origin: i64,
    /// The value the current transition eases toward.
    pub target: i64,
    /// When the current transition started, in milliseconds.
    pub started_at: i64,
}

impl Animation {
    /// Values and timestamp are bounded.
    pub open spec fn wf(self) -> bool {
        &&& value_ok(self.origin as int)
        &&& value_ok(self.target as int)
        &&& time_ok(self.started_at as int)
    }

    /// A tween resting at `v`.
    pub open spec fn spec_new(v: int) -> Animation {
        Animation { origin: v as i64, target: v as i64, started_at: 0 }
    }

    /// The interpolated value at time `t`: the origin before the
    /// transition starts, the target after it ends, and the linear
    /// interpolation in between.
    pub open spec fn spec_value_at(self, t: int) -> int {
        let dur = ANIMATION_DURATION_MS as int;
        if self.origin == self.target {
            self.target as int
        } else if t <= self.started_at {
            self.origin as int
        } else if t >= self.started_at + dur {
            self.target as int
        } else {
            let elapsed = t - self.started_at;
            if self.target >= self.origin {
                self.origin + (self.target - self.origin) * elapsed / dur
            } else {
                self.origin - (self.origin - self.target) * elapsed / dur
            }
        }
    }

    /// Whether the tween is still converging at time `t`.
    pub open spec fn spec_is_animating(self, t: int) -> bool {
        self.origin != self.target && t < self.started_at + ANIMATION_DURATION_MS
    }

    /// The tween after retargeting to `new_target` at time `at`: a no-op
    /// when the target is unchanged, else a fresh transition starting from
    /// the current interpolated value.
    pub open spec fn spec_go(self, new_target: int, at: int) -> Animation {
        if new_target == self.target {
            self
        } else {
            Animation {
                origin: self.spec_value_at(at) as i64,
                target: new_target as i64,
                started_at: at as i64,
            }
        }
    }

    /// Creates a tween resting at `v`.
    pub fn new(v: i64) -> (a: Animation)
        ensures
            a == Animation::spec_new(v as int),
    {
        Animation { origin: v, target: v, started_at: 0 }
    }

    /// The interpolated value always lies between origin and target.
    pub proof fn lemma_value_at_in_range(self, t: int)
        requires
            self.wf(),
        ensures
            self.origin <= self.target ==> self.origin <= self.spec_value_at(t) <= self.target,
            self.target <= self.origin ==> self.target <= self.spec_value_at(t) <= self.origin,
    {
        let dur = ANIMATION_DURATION_MS as int;
        if self.origin != self.target && self.started_at < t < self.started_at + dur {
            let elapsed = t - self.started_at;
            if self.target >= self.origin {
                let delta = self.target - self.origin;
                lemma_div_pos_is_pos(delta * elapsed, dur);
                lemma_mul_inequality(elapsed, dur, delta);
                assert(elapsed * delta == delta * elapsed) by (nonlinear_arith);
                assert(dur * delta == delta * dur) by (nonlinear_arith);
                lemma_div_is_ordered(delta * elapsed, dur * delta, dur);
                lemma_div_multiples_vanish(delta, dur);
            } else {
                let delta = self.origin - self.target;
                lemma_div_pos_is_pos(delta * elapsed, dur);
                lemma_mul_inequality(elapsed, dur, delta);
                assert(elapsed * delta == delta * elapsed) by (nonlinear_arith);
                assert(dur * delta == delta * dur) by (nonlinear_arith);
                lemma_div_is_ordered(delta * elapsed, dur * delta, dur);
                lemma_div_multiples_vanish(delta, dur);
            }
        }
    }

    /// Returns the interpolated value of the tween at time `now`.
    pub fn interpolate(&self, now: i64) -> (v: i64)
        requires
            self.wf(),
            time_ok(now as int),
        ensures
            v as int == self.spec_value_at(now as int),
            value_ok(v as int),
    {
        proof {
            self.lemma_value_at_in_range(now as int);
        }
        if self.origin == self.target {
            self.target
        } else if now <= self.started_at {
            self.origin
        } else if now >= self.started_at + ANIMATION_DURATION_MS {
            self.target
        } else {
            let elapsed: i64 = now - self.started_at;
            if self.target >= self.origin {
                let delta: i64 = self.target - self.origin;
                proof {
                    assert(0 <= (delta as int) * (elapsed as int) <= 0x200_0000_0000_0000)
                        by (nonlinear_arith)
                        requires
                            0 <= delta <= 2 * MAX_TWEEN,
                            0 < elapsed < ANIMATION_DURATION_MS,
                    ;
                }
                self.origin + (delta * elapsed) / ANIMATION_DURATION_MS
            } else {
                let delta: i64 = self.origin - self.target;
                proof {
                    assert(0 <= (delta as int) * (elapsed as int) <= 0x200_0000_0000_0000)
                        by (nonlinear_arith)
                        requires
                            0 <= delta <= 2 * MAX_TWEEN,
                            0 < elapsed < ANIMATION_DURATION_MS,
                    ;
                }
                self.origin - (delta * elapsed) / ANIMATION_DURATION_MS
            }
        }
    }

    /// Returns whether the tween is still converging at time `now`.
    pub fn is_animating(&self, now: i64) -> (b: bool)
        requires
            self.wf(),
            time_ok(now as int),
        ensures
            b == self.spec_is_animating(now as int),
    {
        self.origin != self.target && now < self.started_at + ANIMATION_DURATION_MS
    }

    /// Retargets the tween to `new_target` at time `at`, starting from its
    /// current interpolated value.
    pub fn go_mut(&mut self, new_target: i64, at: i64)
        requires
            old(self).wf(),
            value_ok(new_target as int),
            time_ok(at as int),
        ensures
            *final(self) == old(self).spec_go(new_target as int, at as int),
            final(self).wf(),
    {
        proof {
            self.lemma_value_at_in_range(at as int);
        }
        if new_target != self.target {
            let current = self.interpolate(at);
            self.origin = current;
            self.target = new_target;
            self.started_at = at;
        }
    }
}

/// One tween per child slot, in slot order.
#[derive(Clone, Debug)]
pub struct ItemAnimations {
    /// The per-slot offset tweens.
    pub offsets: Vec<Animation>,
}

impl ItemAnimations {
    /// Every slot is well formed.
    pub open spec fn wf(self) -> bool {
        forall|i: int| 0 <= i < self.offsets.len() ==> (#[trigger] self.offsets[i]).wf()
    }

    /// Whether some slot is still converging at time `t`.
    pub open spec fn spec_is_animating(self, t: int) -> bool {
        exists|i: int| 0 <= i < self.offsets.len() && (#[trigger] self.offsets[i]).spec_is_animating(
            t,
        )
    }

    /// Creates an empty animation set.
    pub fn new() -> (a: ItemAnimations)
        ensures
            a.offsets@.len() == 0,
            a.wf(),
    {
        ItemAnimations { offsets: Vec::new() }
    }

    /// Snaps every slot to a resting zero, without easing.
    pub fn zero(&mut self)
        requires
            old(self).wf(),
        ensures
            final(self).offsets@.len() == old(self).offsets@.len(),
            forall|i: int|
                0 <= i < final(self).offsets@.len() ==> final(self).offsets@[i]
                    == Animation::spec_new(0),
            final(self).wf(),
    {
        let n = self.offsets.len();
        let mut i: usize = 0;
        while i < n
            invariant
                n == self.offsets@.len(),
                i <= n,
                forall|j: int| 0 <= j < i ==> self.offsets@[j] == Animation::spec_new(0),
                forall|j: int| i <= j < n ==> self.offsets@[j] == old(self).offsets@[j],
            decreases n - i,
        {
            self.offsets.set(i, Animation::new(0));
            i = i + 1;
        }
    }

    /// Returns whether any slot is still converging at time `now`.
    pub fn is_animating(&self, now: i64) -> (b: bool)
        requires
            self.wf(),
            time_ok(now as int),
        ensures
            b == self.spec_is_animating(now as int),
    {
        let n = self.offsets.len();
        let mut i: usize = 0;
        while i < n
            invariant
                n == self.offsets@.len(),
                i <= n,
                self.wf(),
                time_ok(now as int),
                forall|j: int|
                    0 <= j < i ==> !(#[trigger] self.offsets@[j]).spec_is_animating(now as int),
            decreases n - i,
        {
            let a = self.offsets[i];
            if a.is_animating(now) {
                return true;
            }
            i = i + 1;
        }
        false
    }

    /// Grows the set to at least `count` slots, adding resting zero slots
    /// and keeping every existing slot's in-flight value; never shrinks.
    pub fn with_capacity(&mut self, count: usize)
        requires
            old(self).wf(),
        ensures
            final(self).offsets@.len() == if old(self).offsets@.len() >= count {
                old(self).offsets@.len() as int
            } else {
                count as int
            },
            forall|i: int|
                0 <= i < old(self).offsets@.len()
                    ==> #[trigger] final(self).offsets@[i] == old(self).offsets@[i],
            forall|i: int|
                old(self).offsets@.len() <= i < final(self).offsets@.len()
                    ==> #[trigger] final(self).offsets@[i] == Animation::spec_new(0),
            final(self).wf(),
    {
        while self.offsets.len() < count
            invariant
                old(self).offsets@.len() <= self.offsets@.len(),
                self.offsets@.len() <= count || self.offsets@.len() == old(self).offsets@.len(),
                forall|i: int|
                    0 <= i < old(self).offsets@.len()
                        ==> #[trigger] self.offsets@[i] == old(self).offsets@[i],
                forall|i: int|
                    old(self).offsets@.len() <= i < self.offsets@.len()
                        ==> #[trigger] self.offsets@[i] == Animation::spec_new(0),
            decreases count - self.offsets@.len(),
        {
            self.offsets.push(Animation::new(0));
        }
    }
}

} // verus!
