use vstd::prelude::*;

verus! {

/// A named colour of the games' drawing palette.
///
/// The library decides which colour a thing is drawn in; the front end maps
/// each name to the RGBA value of its graphics toolkit.
#[derive(Clone, Copy, Debug, PartialEq, Eq, Structural)]
pub enum PaletteColor {
    Red,
    Blue,
    Yellow,
    Black,
    White,
    Brown,
    Gray,
    SkyBlue,
    Green,
}

} // verus!
