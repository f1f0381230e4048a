use vstd::arithmetic::div_mod::lemma_fundamental_div_mod;
use vstd::arithmetic::div_mod::lemma_fundamental_div_mod_converse;
use vstd::prelude::*;

use crate::config::Das;

verus! {

/// Requested actions for one frame, as raw button states.
#[derive(Debug, Copy, Clone, PartialEq, Eq, Structural, Hash)]
pub struct FrameInput {
    /// Attempt to move the falling piece to the left (auto-repeats).
    pub left: bool,
    /// Attempt to move the falling piece to the right (auto-repeats).
    pub right: bool,
    /// Attempt to soft-drop the falling piece (auto-repeats).
    pub soft_drop: bool,
    /// Hard-drop the falling piece.
    pub hard_drop: bool,
    /// Attempt to rotate the piece 90 degrees clockwise.
    pub rot_cw: bool,
    /// Attempt to rotate the piece 90 degrees counterclockwise.
    pub rot_ccw: bool,
    /// Attempt to rotate the piece 180 degrees.
    pub rot_180: bool,
    /// Attempt to swap the falling piece with the held piece.
    pub hold: bool,
}

impl FrameInput {
    /// The all-released snapshot.
    pub open spec fn released() -> FrameInput {
        FrameInput {
            left: false,
            right: false,
            soft_drop: false,
            hard_drop: false,
            rot_cw: false,
            rot_ccw: false,
            rot_180: false,
            hold: false,
        }
    }
}

impl Default for FrameInput {
    fn default() -> (r: FrameInput)
        ensures
            r == FrameInput::released(),
    {
        FrameInput {
            left: false,
            right: false,
            soft_drop: false,
            hard_drop: false,
            rot_cw: false,
            rot_ccw: false,
            rot_180: false,
            hold: false,
        }
    }
}

/// Delayed-auto-shift state of one tracked direction.
#[derive(Debug, Copy, Clone, PartialEq, Eq, Structural, Hash)]
pub enum DasState {
    /// The direction is not held.
    Released,
    /// The direction is held; `repeat_at` is the next time an auto-repeat
    /// fires, or `None` when auto-repeat is not configured.
    Pressed { repeat_at: Option<u64> },
}

impl DasState {
    /// One update of the state machine: the new state and whether to act.
    ///
    /// Releasing always returns to `Released` without acting. A fresh press
    /// acts at once and schedules the first auto-repeat after the configured
    /// delay. While held, the machine acts whenever the scheduled time has
    /// been reached, and then advances the schedule by the auto-repeat rate
    /// (rather than resetting it relative to `now`, to avoid drift).
    pub open spec fn update_spec(s: DasState, das: Option<Das>, now: u64, is_down: bool) -> (
        DasState,
        bool,
    ) {
        if !is_down {
            (DasState::Released, false)
        } else {
            match s {
                DasState::Released => {
                    let scheduled = match das {
                        Some(d) => Some((now + d.delay) as u64),
                        None => None,
                    };
                    (DasState::Pressed { repeat_at: scheduled }, true)
                },
                DasState::Pressed { repeat_at } => {
                    match (das, repeat_at) {
                        (Some(d), Some(t)) => {
                            if t <= now {
                                (DasState::Pressed { repeat_at: Some((t + d.arr) as u64) }, true)
                            } else {
                                (DasState::Pressed { repeat_at: Some(t) }, false)
                            }
                        },
                        _ => (DasState::Pressed { repeat_at }, false),
                    }
                },
            }
        }
    }

    /// Updates the state and returns whether to perform the action.
    pub fn update(&mut self, das: Option<Das>, now: u64, is_down: bool) -> (r: bool)
        requires
            das matches Some(d) ==> now + d.delay <= u64::MAX && now + d.arr <= u64::MAX,
        ensures
            (*final(self), r) == DasState::update_spec(*old(self), das, now, is_down),
    {
        if is_down {
            match *self {
                DasState::Released => {
                    let scheduled = match das {
                        Some(d) => Some(now + d.delay),
                        None => None,
                    };
                    *self = DasState::Pressed { repeat_at: scheduled };
                    true
                },
                DasState::Pressed { repeat_at } => {
                    match (das, repeat_at) {
                        (Some(d), Some(t)) => {
                            if t <= now {
                                *self = DasState::Pressed { repeat_at: Some(t + d.arr) };
                                true
                            } else {
                                false
                            }
                        },
                        _ => false,
                    }
                },
            }
        } else {
            *self = DasState::Released;
            false
        }
    }
}

impl Default for DasState {
    fn default() -> (r: DasState)
        ensures
            r == DasState::Released,
    {
        DasState::Released
    }
}

/// Per-direction auto-shift state plus the previous frame's raw buttons,
/// used to detect down-going edges for the non-repeating actions.
#[derive(Debug, Copy, Clone, PartialEq, Eq, Structural, Hash)]
pub struct InputState {
    pub left: DasState,
    pub right: DasState,
    pub soft_drop: DasState,
    pub keys_down: FrameInput,
}

impl Default for InputState {
    fn default() -> (r: InputState)
        ensures
            r == InputState::released(),
    {
        InputState {
            left: DasState::Released,
            right: DasState::Released,
            soft_drop: DasState::Released,
            keys_down: FrameInput::default(),
        }
    }
}

impl InputState {
    /// The initial state: nothing held, nothing scheduled.
    pub open spec fn released() -> InputState {
        InputState {
            left: DasState::Released,
            right: DasState::Released,
            soft_drop: DasState::Released,
            keys_down: FrameInput::released(),
        }
    }

    /// Updates the input state from a raw button snapshot and returns which
    /// actions to perform this frame: auto-repeat-aware for the three
    /// directions, edge-triggered for the rest.
    pub fn update(&mut self, das: Option<Das>, now: u64, keys_down: FrameInput) -> (r: FrameInput)
        requires
            das matches Some(d) ==> now + d.delay <= u64::MAX && now + d.arr <= u64::MAX,
        ensures
            final(self).keys_down == keys_down,
            (final(self).left, r.left) == DasState::update_spec(
                old(self).left,
                das,
                now,
                keys_down.left,
            ),
            (final(self).right, r.right) == DasState::update_spec(
                old(self).right,
                das,
                now,
                keys_down.right,
            ),
            (final(self).soft_drop, r.soft_drop) == DasState::update_spec(
                old(self).soft_drop,
                das,
                now,
                keys_down.soft_drop,
            ),
            r.hard_drop == (keys_down.hard_drop && !old(self).keys_down.hard_drop),
            r.rot_cw == (keys_down.rot_cw && !old(self).keys_down.rot_cw),
            r.rot_ccw == (keys_down.rot_ccw && !old(self).keys_down.rot_ccw),
            r.rot_180 == (keys_down.rot_180 && !old(self).keys_down.rot_180),
            r.hold == (keys_down.hold && !old(self).keys_down.hold),
    {
        let old_keys = self.keys_down;
        self.keys_down = keys_down;

        FrameInput {
            left: self.left.update(das, now, keys_down.left),
            right: self.right.update(das, now, keys_down.right),
            soft_drop: self.soft_drop.update(das, now, keys_down.soft_drop),
            hard_drop: keys_down.hard_drop && !old_keys.hard_drop,
            rot_cw: keys_down.rot_cw && !old_keys.rot_cw,
            rot_ccw: keys_down.rot_ccw && !old_keys.rot_ccw,
            rot_180: keys_down.rot_180 && !old_keys.rot_180,
            hold: keys_down.hold && !old_keys.hold,
        }
    }
}

/// State of one direction before frame `t`, when the direction has been
/// held continuously from the `Released` state with one update per frame,
/// frame `t` updating at time `t`.
pub open spec fn held_state(das: Das, t: u64) -> DasState
    decreases t,
{
    if t == 0 {
        DasState::Released
    } else {
        DasState::update_spec(held_state(das, (t - 1) as u64), Some(das), (t - 1) as u64, true).0
    }
}

/// Whether frame `t` of a continuous hold acts.
pub open spec fn held_acts(das: Das, t: u64) -> bool {
    DasState::update_spec(held_state(das, t), Some(das), t, true).1
}

/// The scheduled repeat time before frame `t` of a continuous hold.
spec fn held_schedule(das: Das, t: u64) -> int {
    if t <= das.delay {
        das.delay as int
    } else {
        (t - 1) + das.arr - ((t - 1 - das.delay) % (das.arr as int))
    }
}

/// Incrementing the dividend steps the remainder cyclically.
proof fn lemma_mod_step(x: int, a: int)
    requires
        0 <= x,
        0 < a,
    ensures
        x % a == a - 1 ==> (x + 1) % a == 0,
        x % a < a - 1 ==> (x + 1) % a == x % a + 1,
{
    lemma_fundamental_div_mod(x, a);
    let q = x / a;
    let r = x % a;
    if r == a - 1 {
        assert(x + 1 == (q + 1) * a + 0) by (nonlinear_arith)
            requires
                x == a * q + r,
                r == a - 1,
        ;
        lemma_fundamental_div_mod_converse(x + 1, a, q + 1, 0);
    } else {
        assert(x + 1 == q * a + (r + 1)) by (nonlinear_arith)
            requires
                x == a * q + r,
        ;
        lemma_fundamental_div_mod_converse(x + 1, a, q, r + 1);
    }
}

/// During a continuous hold the machine stays pressed, with the repeat time
/// given by `held_schedule`.
proof fn lemma_das_schedule(das: Das, t: u64)
    requires
        das.arr >= 1,
        das.delay >= 1,
        t >= 1,
        t + das.delay + das.arr <= u64::MAX,
    ensures
        held_state(das, t) == (DasState::Pressed {
            repeat_at: Some(held_schedule(das, t) as u64),
        }),
        das.delay <= held_schedule(das, t) <= t - 1 + das.arr + das.delay,
    decreases t,
{
    if t == 1 {
        assert(held_state(das, 0) == DasState::Released);
    } else {
        lemma_das_schedule(das, (t - 1) as u64);
        let prev = held_schedule(das, (t - 1) as u64);
        if prev <= t - 1 {
            // frame t - 1 acted and advanced the schedule by the repeat rate
            if t - 1 <= das.delay {
                // the initial delayed action at time delay
                assert(prev == das.delay);
                assert(t - 1 == das.delay as int);
                assert(held_schedule(das, t) == das.delay + das.arr) by {
                    assert((t - 1 - das.delay) % (das.arr as int) == 0) by {
                        lemma_fundamental_div_mod_converse(0, das.arr as int, 0, 0);
                    }
                }
            } else {
                let m = (t - 2 - das.delay) % (das.arr as int);
                assert(prev == (t - 2) + das.arr - m);
                assert(m == das.arr - 1);
                lemma_mod_step(t - 2 - das.delay, das.arr as int);
                assert((t - 1 - das.delay) % (das.arr as int) == 0);
                assert(held_schedule(das, t) == t - 1 + das.arr);
            }
        } else {
            // frame t - 1 did not act; the schedule is unchanged
            if t - 1 <= das.delay {
                assert(held_schedule(das, t) == prev) by {
                    if t > das.delay {
                        assert(t - 1 == das.delay as int);
                        assert((t - 1 - das.delay) % (das.arr as int) == 0) by {
                            lemma_fundamental_div_mod_converse(0, das.arr as int, 0, 0);
                        }
                        assert(held_schedule(das, t) == t - 1 + das.arr);
                        assert(prev == das.delay);
                    }
                }
            } else {
                let m = (t - 2 - das.delay) % (das.arr as int);
                assert(prev == (t - 2) + das.arr - m);
                assert(m < das.arr - 1);
                lemma_mod_step(t - 2 - das.delay, das.arr as int);
                assert((t - 1 - das.delay) % (das.arr as int) == m + 1);
                assert(held_schedule(das, t) == prev);
            }
        }
    }
}

/// Delayed-auto-shift timing: holding a direction continuously from release
/// acts at frame 0, stays silent until the configured delay `D`, acts at
/// frame `D`, and then acts every `R` frames thereafter.
pub proof fn lemma_das_timing(das: Das, t: u64)
    requires
        das.arr >= 1,
        das.delay >= 1,
        t + das.delay + das.arr <= u64::MAX,
    ensures
        held_acts(das, t) == (t == 0 || (t >= das.delay && (t - das.delay) % (das.arr as int)
            == 0)),
{
    if t == 0 {
        assert(held_state(das, 0) == DasState::Released);
    } else {
        lemma_das_schedule(das, t);
        let rep = held_schedule(das, t);
        if t <= das.delay {
            assert(rep == das.delay);
            assert(held_acts(das, t) == (t >= das.delay));
            if t == das.delay {
                assert((t - das.delay) % (das.arr as int) == 0) by {
                    lemma_fundamental_div_mod_converse(0, das.arr as int, 0, 0);
                }
            }
        } else {
            let m = (t - 1 - das.delay) % (das.arr as int);
            assert(rep == (t - 1) + das.arr - m);
            assert(held_acts(das, t) == (rep <= t));
            lemma_mod_step(t - 1 - das.delay, das.arr as int);
            if m == das.arr - 1 {
                assert(rep == t);
                assert((t - das.delay) % (das.arr as int) == 0);
            } else {
                assert(rep > t);
                assert((t - das.delay) % (das.arr as int) == m + 1);
            }
        }
    }
}

} // verus!
