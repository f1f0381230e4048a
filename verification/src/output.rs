use vstd::prelude::*;

use crate::error::Blocked;
use crate::error::HoldUsed;
use crate::game::FallingPiece;

verus! {

/// Result of simulating a frame: which actions were attempted and how each
/// fared. `None` means the action was not requested this frame.
///
/// This can be used, e.g., to play sound effects.
#[derive(Debug, Clone)]
pub struct FrameOutput {
    /// Attempt to move the falling piece to the left (auto-repeats).
    pub left: Option<Result<(), Blocked>>,
    /// Attempt to move the falling piece to the right (auto-repeats).
    pub right: Option<Result<(), Blocked>>,
    /// Attempt to soft-drop the falling piece (auto-repeats).
    pub soft_drop: Option<Result<(), Blocked>>,
    /// Hard drop of the falling piece; holds its pre-drop location.
    pub hard_drop: Option<Result<FallingPiece, Blocked>>,
    /// Attempt to rotate the piece 90 degrees clockwise.
    pub rot_cw: Option<Result<(), Blocked>>,
    /// Attempt to rotate the piece 90 degrees counterclockwise.
    pub rot_ccw: Option<Result<(), Blocked>>,
    /// Attempt to rotate the piece 180 degrees.
    pub rot_180: Option<Result<(), Blocked>>,
    /// Attempt to swap the falling piece with the held piece.
    pub hold: Option<Result<(), HoldUsed>>,
    /// The piece that locked into place this frame, if any.
    pub locked_piece: Option<FallingPiece>,
    /// Row indices cleared on this frame, lowest first; `None` when no row
    /// cleared. To display an animation, stop calling `step` while the
    /// animation plays.
    pub rows_cleared: Option<Vec<i8>>,
}

} // verus!
