use vstd::prelude::*;

verus! {

/// The colour of a body's marker in a rendered frame.
#[derive(Debug, Clone, Copy, PartialEq, Eq, Structural)]
pub enum MarkerColor {
    Blue,
    Red,
    Green,
    Black,
}

/// The first three bodies are drawn blue, red and green; any further body
/// black.
pub fn marker_color(index: usize) -> (c: MarkerColor)
    ensures
        c == (if index == 0 {
            MarkerColor::Blue
        } else if index == 1 {
            MarkerColor::Red
        } else if index == 2 {
            MarkerColor::Green
        } else {
            MarkerColor::Black
        }),
{
    match index {
        0 => MarkerColor::Blue,
        1 => MarkerColor::Red,
        2 => MarkerColor::Green,
        _ => MarkerColor::Black,
    }
}

} // verus!
