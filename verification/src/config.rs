use vstd::prelude::*;

use crate::pos::Pos;

verus! {

/// Delayed-auto-shift behavior, in engine time units (ticks).
#[derive(Debug, Copy, Clone, PartialEq, Eq, Structural, Hash)]
pub struct Das {
    /// Delay between the player holding down a direction and the first
    /// auto-shift.
    pub delay: u64,
    /// Interval between auto-shift repeats.
    pub arr: u64,
}

/// Lock down behavior.
#[derive(Debug, Copy, Clone, PartialEq, Eq, Structural, Hash)]
#[non_exhaustive]
pub enum LockDown {
    /// Reset the lock down timer when the piece is moved or rotated.
    ///
    /// Also called **Infinite Placement Lock Down**. Other policies are
    /// reserved and not yet implemented.
    Infinity,
}

impl Default for LockDown {
    fn default() -> (r: LockDown)
        ensures
            r == LockDown::Infinity,
    {
        LockDown::Infinity
    }
}

/// Engine configuration.
#[derive(Debug, Copy, Clone, PartialEq, Eq, Structural, Hash)]
pub struct Config {
    /// Width of the visible playfield.
    pub width: u8,
    /// Height of the visible playfield. Everything above it is the vanish
    /// zone.
    pub height: u8,
    /// Height of the buffer zone above the visible playfield, within the
    /// vanish zone.
    pub buffer_height: u8,
    /// Spawn anchor for new pieces.
    pub spawn_pos: Pos,
    /// Delayed-auto-shift behavior; `None` disables key repeat.
    pub das: Option<Das>,
    /// Lock down behavior.
    pub lock_down: LockDown,
    /// Whether to decrease the lock down delay per level at maximum
    /// gravity. Reserved: not yet behaviorally wired.
    pub master_mode: bool,
}

impl Config {
    /// The playfield dimensions fit the signed 8-bit range and leave at
    /// least one row.
    pub open spec fn wf(self) -> bool {
        &&& self.width <= 127
        &&& self.height + self.buffer_height <= 127
        &&& self.height + self.buffer_height >= 1
    }

    /// Total grid height: visible height plus buffer.
    pub open spec fn total_height(self) -> int {
        self.height + self.buffer_height
    }
}

impl Default for Config {
    fn default() -> (r: Config)
        ensures
            r.width == 10,
            r.height == 20,
            r.buffer_height == 20,
            r.spawn_pos == (Pos { x: 4 as i8, y: 20 as i8 }),
            r.das is None,
            r.lock_down == LockDown::Infinity,
            !r.master_mode,
            r.wf(),
    {
        Config {
            width: 10,
            height: 20,
            buffer_height: 20,
            spawn_pos: Pos { x: 4, y: 20 },
            das: None,
            lock_down: LockDown::Infinity,
            master_mode: false,
        }
    }
}

} // verus!
