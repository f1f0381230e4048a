use vstd::prelude::*;

verus! {

/// Auto-repeat delay for shell navigation keys, in nanoseconds (a third of
/// a second).
pub const KEY_REPEAT_DELAY_NANOS: u64 = 1_000_000_000 / 3;

/// Auto-repeat interval for shell navigation keys, in nanoseconds (a
/// sixteenth of a second).
pub const KEY_REPEAT_RATE_NANOS: u64 = 1_000_000_000 / 16;

/// Boolean for each controller button.
///
/// Depending on context, this may represent buttons currently held,
/// buttons newly pressed, or any other boolean property.
#[derive(Debug, Copy, Clone, PartialEq, Eq, Structural, Hash)]
pub struct Buttons {
    // D pad
    pub up: bool,
    pub down: bool,
    pub left: bool,
    pub right: bool,
    // Thumb buttons
    pub a: bool,
    pub b: bool,
    pub x: bool,
    pub y: bool,
    // Shoulder buttons
    pub l: bool,
    pub r: bool,
    pub lt: bool,
    pub rt: bool,
    // Middle buttons
    pub plus: bool,
    pub minus: bool,
    pub star: bool,
    pub heart: bool,
}

impl Buttons {
    /// No button held.
    pub open spec fn none_spec() -> Buttons {
        Buttons {
            up: false,
            down: false,
            left: false,
            right: false,
            a: false,
            b: false,
            x: false,
            y: false,
            l: false,
            r: false,
            lt: false,
            rt: false,
            plus: false,
            minus: false,
            star: false,
            heart: false,
        }
    }

    /// Fieldwise disjunction.
    pub open spec fn or_spec(p: Buttons, q: Buttons) -> Buttons {
        Buttons {
            up: p.up || q.up,
            down: p.down || q.down,
            left: p.left || q.left,
            right: p.right || q.right,
            a: p.a || q.a,
            b: p.b || q.b,
            x: p.x || q.x,
            y: p.y || q.y,
            l: p.l || q.l,
            r: p.r || q.r,
            lt: p.lt || q.lt,
            rt: p.rt || q.rt,
            plus: p.plus || q.plus,
            minus: p.minus || q.minus,
            star: p.star || q.star,
            heart: p.heart || q.heart,
        }
    }

    /// Fieldwise `p && !q`.
    pub open spec fn and_not_spec(p: Buttons, q: Buttons) -> Buttons {
        Buttons {
            up: p.up && !q.up,
            down: p.down && !q.down,
            left: p.left && !q.left,
            right: p.right && !q.right,
            a: p.a && !q.a,
            b: p.b && !q.b,
            x: p.x && !q.x,
            y: p.y && !q.y,
            l: p.l && !q.l,
            r: p.r && !q.r,
            lt: p.lt && !q.lt,
            rt: p.rt && !q.rt,
            plus: p.plus && !q.plus,
            minus: p.minus && !q.minus,
            star: p.star && !q.star,
            heart: p.heart && !q.heart,
        }
    }

    /// Fieldwise disjunction of two button states.
    pub fn union(p: Buttons, q: Buttons) -> (o: Buttons)
        ensures
            o == Buttons::or_spec(p, q),
    {
        Buttons {
            up: p.up || q.up,
            down: p.down || q.down,
            left: p.left || q.left,
            right: p.right || q.right,
            a: p.a || q.a,
            b: p.b || q.b,
            x: p.x || q.x,
            y: p.y || q.y,
            l: p.l || q.l,
            r: p.r || q.r,
            lt: p.lt || q.lt,
            rt: p.rt || q.rt,
            plus: p.plus || q.plus,
            minus: p.minus || q.minus,
            star: p.star || q.star,
            heart: p.heart || q.heart,
        }
    }

    /// The buttons held in `p` but not in `q`.
    pub fn difference(p: Buttons, q: Buttons) -> (o: Buttons)
        ensures
            o == Buttons::and_not_spec(p, q),
    {
        Buttons {
            up: p.up && !q.up,
            down: p.down && !q.down,
            left: p.left && !q.left,
            right: p.right && !q.right,
            a: p.a && !q.a,
            b: p.b && !q.b,
            x: p.x && !q.x,
            y: p.y && !q.y,
            l: p.l && !q.l,
            r: p.r && !q.r,
            lt: p.lt && !q.lt,
            rt: p.rt && !q.rt,
            plus: p.plus && !q.plus,
            minus: p.minus && !q.minus,
            star: p.star && !q.star,
            heart: p.heart && !q.heart,
        }
    }
}

impl Default for Buttons {
    fn default() -> (r: Buttons)
        ensures
            r == Buttons::none_spec(),
    {
        Buttons {
            up: false,
            down: false,
            left: false,
            right: false,
            a: false,
            b: false,
            x: false,
            y: false,
            l: false,
            r: false,
            lt: false,
            rt: false,
            plus: false,
            minus: false,
            star: false,
            heart: false,
        }
    }
}

/// Current and previous button state of one controller, for edge
/// detection.
#[derive(Debug, Copy, Clone, PartialEq, Eq, Structural, Hash)]
pub struct ControllerInput {
    /// Buttons currently held down.
    pub current: Buttons,
    /// Buttons held down last frame.
    pub previous: Buttons,
}

impl ControllerInput {
    /// Returns the buttons that were pressed on the current frame.
    pub fn pressed(self) -> (r: Buttons)
        ensures
            r == Buttons::and_not_spec(self.current, self.previous),
    {
        Buttons::difference(self.current, self.previous)
    }

    /// Returns the buttons that were released on the current frame.
    pub fn released(self) -> (r: Buttons)
        ensures
            r == Buttons::and_not_spec(self.previous, self.current),
    {
        Buttons::difference(self.previous, self.current)
    }
}

impl Default for ControllerInput {
    fn default() -> (r: ControllerInput)
        ensures
            r.current == Buttons::none_spec(),
            r.previous == Buttons::none_spec(),
    {
        ControllerInput { current: Buttons::default(), previous: Buttons::default() }
    }
}

/// Input state of the two controllers; `None` when a controller is
/// disconnected.
#[derive(Debug, Copy, Clone, PartialEq, Eq, Structural, Hash)]
pub struct FullInput {
    /// Blue controller input state.
    pub blue: Option<ControllerInput>,
    /// Green controller input state.
    pub green: Option<ControllerInput>,
}

impl FullInput {
    /// The input state of a possibly disconnected controller.
    pub open spec fn state_of(c: Option<ControllerInput>) -> ControllerInput {
        match c {
            Some(ci) => ci,
            None => ControllerInput {
                current: Buttons::none_spec(),
                previous: Buttons::none_spec(),
            },
        }
    }

    /// Returns inputs on either controller.
    pub fn any(self) -> (r: ControllerInput)
        ensures
            r.current == Buttons::or_spec(
                Self::state_of(self.blue).current,
                Self::state_of(self.green).current,
            ),
            r.previous == Buttons::or_spec(
                Self::state_of(self.blue).previous,
                Self::state_of(self.green).previous,
            ),
    {
        let blue = match self.blue {
            Some(c) => c,
            None => ControllerInput::default(),
        };
        let green = match self.green {
            Some(c) => c,
            None => ControllerInput::default(),
        };
        ControllerInput {
            current: Buttons::union(blue.current, green.current),
            previous: Buttons::union(blue.previous, green.previous),
        }
    }
}

impl Default for FullInput {
    fn default() -> (r: FullInput)
        ensures
            r.blue is None,
            r.green is None,
    {
        FullInput { blue: None, green: None }
    }
}

/// Auto-repeat state of one shell navigation key, over nanosecond
/// timestamps supplied by the caller.
#[derive(Debug, Copy, Clone, PartialEq, Eq, Structural, Hash)]
pub enum KeyRepeat {
    /// The key is not held.
    Released,
    /// The key is held; the first auto-repeat fires at the stored time.
    Pressed(u64),
    /// The key is auto-repeating; the next repeat fires at the stored
    /// time.
    Repeating(u64),
}

impl KeyRepeat {
    /// One update of the key-repeat machine: the new state and whether to
    /// act.
    pub open spec fn update_spec(s: KeyRepeat, now: u64) -> (KeyRepeat, bool) {
        match s {
            KeyRepeat::Released => (
                KeyRepeat::Pressed((now + KEY_REPEAT_DELAY_NANOS) as u64),
                true,
            ),
            KeyRepeat::Pressed(t) => {
                if now >= t {
                    (KeyRepeat::Repeating((t + KEY_REPEAT_RATE_NANOS) as u64), true)
                } else {
                    (KeyRepeat::Pressed(t), false)
                }
            },
            KeyRepeat::Repeating(t) => {
                if now >= t {
                    (KeyRepeat::Repeating((t + KEY_REPEAT_RATE_NANOS) as u64), true)
                } else {
                    (KeyRepeat::Repeating(t), false)
                }
            },
        }
    }

    pub fn new() -> (r: KeyRepeat)
        ensures
            r == KeyRepeat::Released,
    {
        KeyRepeat::Released
    }

    /// Updates the state at time `now` and returns whether to perform the
    /// key's action: at once on a fresh press, then after the delay, then
    /// at the repeat rate.
    pub fn update(&mut self, now: u64, is_down: bool) -> (r: bool)
        requires
            now + KEY_REPEAT_DELAY_NANOS <= u64::MAX,
            *old(self) matches KeyRepeat::Pressed(t) ==> t + KEY_REPEAT_RATE_NANOS <= u64::MAX,
            *old(self) matches KeyRepeat::Repeating(t) ==> t + KEY_REPEAT_RATE_NANOS <= u64::MAX,
        ensures
            is_down ==> (*final(self), r) == KeyRepeat::update_spec(*old(self), now),
            !is_down ==> *final(self) == KeyRepeat::Released && !r,
    {
        if is_down {
            match *self {
                KeyRepeat::Released => {
                    *self = KeyRepeat::Pressed(now + KEY_REPEAT_DELAY_NANOS);
                    true
                },
                KeyRepeat::Pressed(t) => {
                    if now >= t {
                        *self = KeyRepeat::Repeating(t + KEY_REPEAT_RATE_NANOS);
                        true
                    } else {
                        false
                    }
                },
                KeyRepeat::Repeating(t) => {
                    if now >= t {
                        *self = KeyRepeat::Repeating(t + KEY_REPEAT_RATE_NANOS);
                        true
                    } else {
                        false
                    }
                },
            }
        } else {
            *self = KeyRepeat::Released;
            false
        }
    }
}

impl Default for KeyRepeat {
    fn default() -> (r: KeyRepeat)
        ensures
            r == KeyRepeat::Released,
    {
        KeyRepeat::Released
    }
}

} // verus!
