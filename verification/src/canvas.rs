//! The identifiers of the canvas front end: its messages, its component
//! ids, and the kinds of room its renderer can draw.

use vstd::prelude::*;

verus! {

/// A message the canvas application reacts to.
#[derive(Clone, Copy, Debug, PartialEq, Eq, Structural)]
pub enum Msg {
    Quit,
    Nothing,
}

/// The id of a mounted component.
#[derive(Clone, Copy, Debug, PartialEq, Eq, Structural)]
pub enum Id {
    Canvas,
}

/// The kinds of room the renderer can draw; the back way is not rendered.
#[derive(Clone, Copy, Debug, PartialEq, Eq, Structural)]
pub enum Room {
    /// One exit (front).
    Corridor,
    CorridorWithMazeExit,
    TwoExit,
    TwoExitWithMazeExit,
    ThreeExit,
}

} // verus!
