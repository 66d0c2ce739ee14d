//! Settings and errors of a program that runs the console in a window.
use vstd::prelude::*;

verus! {

/// The shape of a screen pixel.
#[derive(Clone, Copy, PartialEq, Eq, Debug, Structural)]
pub enum AspectRatio {
    /// Pixels as wide as they are high.
    SquarePixels,
    /// Pixels stretched so that the picture has the 4:3 shape of a television.
    FourByThree,
}

/// The program was started without the path of a cartridge image.
#[derive(Clone, Copy, PartialEq, Eq, Debug, Structural)]
pub struct ArgError;

impl ArgError {
    /// The message that reports the error.
    pub fn message(&self) -> (r: &'static str)
        ensures
            r@ == "Invalid arguments"@,
    {
        "Invalid arguments"
    }
}

} // verus!
