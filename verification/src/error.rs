use vstd::prelude::*;

verus! {

/// Hold already used since the last lock.
#[derive(Debug, Copy, Clone, PartialEq, Eq, Structural, Hash)]
pub struct HoldUsed;

/// All allowed piece positions are blocked.
#[derive(Debug, Copy, Clone, PartialEq, Eq, Structural, Hash)]
pub struct Blocked;

/// The game has ended; the engine refuses further steps.
#[derive(Debug, Copy, Clone, PartialEq, Eq, Structural, Hash)]
pub struct GameOver;

/// Error condition for an operation.
#[derive(Debug, Copy, Clone, PartialEq, Eq, Structural, Hash)]
pub enum Error {
    /// No piece is currently falling.
    NoFallingPiece,
    /// Hold already used.
    HoldUsed,
    /// All allowed piece positions are blocked.
    Blocked,
}

} // verus!
