use vstd::prelude::*;

verus! {

/// sRGB color with channels 0-255.
#[derive(Debug, Copy, Clone, PartialEq, Eq, Hash)]
pub struct Rgb(pub [u8; 3]);

impl Rgb {
    /// The color with the given channel values.
    pub fn channels(red: u8, green: u8, blue: u8) -> (r: Rgb)
        ensures
            r.0[0] == red,
            r.0[1] == green,
            r.0[2] == blue,
    {
        Rgb([red, green, blue])
    }

    /// The color encoded as `0xRRGGBB`.
    pub fn from_hex(hex: u32) -> (r: Rgb)
        ensures
            r.0[0] == (hex >> 16) as u8,
            r.0[1] == (hex >> 8) as u8,
            r.0[2] == hex as u8,
    {
        let red = (hex >> 16) as u8;
        let green = (hex >> 8) as u8;
        let blue = hex as u8;
        Rgb([red, green, blue])
    }

    /// Black.
    pub fn black() -> (r: Rgb)
        ensures
            r.0[0] == 0 && r.0[1] == 0 && r.0[2] == 0,
    {
        Rgb([0, 0, 0])
    }

    /// White.
    pub fn white() -> (r: Rgb)
        ensures
            r.0[0] == 255 && r.0[1] == 255 && r.0[2] == 255,
    {
        Rgb([255, 255, 255])
    }
}

impl Default for Rgb {
    fn default() -> (r: Rgb)
        ensures
            r.0[0] == 0 && r.0[1] == 0 && r.0[2] == 0,
    {
        Rgb([0, 0, 0])
    }
}

/// The raw channel triple encoded as `0xRRGGBB`.
pub fn rgb(hex: u32) -> (r: [u8; 3])
    ensures
        r[0] == (hex >> 16) as u8,
        r[1] == (hex >> 8) as u8,
        r[2] == hex as u8,
{
    let red = (hex >> 16) as u8;
    let green = (hex >> 8) as u8;
    let blue = hex as u8;
    [red, green, blue]
}

/// The channel triple dimmed to a quarter of its brightness.
pub fn dim(c: [u8; 3]) -> (r: [u8; 3])
    ensures
        r[0] == c[0] / 4,
        r[1] == c[1] / 4,
        r[2] == c[2] / 4,
{
    [c[0] / 4, c[1] / 4, c[2] / 4]
}

} // verus!
