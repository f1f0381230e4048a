use vstd::prelude::*;

verus! {

/// Width of the LED panel, in pixels.
pub const WIDTH: usize = 32;

/// Height of the LED panel, in pixels.
pub const HEIGHT: usize = 64;

/// Frames per second of the console's frame loop.
pub const FPS: usize = 120;

/// Whether a pixel coordinate lies on the panel.
pub fn xy_is_in_frame(xy: [usize; 2]) -> (r: bool)
    ensures
        r == (xy[0] < WIDTH && xy[1] < HEIGHT),
{
    xy[0] < WIDTH && xy[1] < HEIGHT
}

} // verus!
