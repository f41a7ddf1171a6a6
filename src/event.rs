use vstd::prelude::*;

verus! {

/// An application event: a key press, or a tick of the refresh timer.
/// The two are produced independently and arrive in the order they were sent.
pub enum Event<I> {
    /// User input from keyboard
    Input(I),
    /// The fixed-interval timer fired
    Tick,
}

/// A key press, as far as the dashboard distinguishes keys.
#[derive(Clone, Copy, PartialEq, Eq, Structural, Debug)]
pub enum Key {
    Char(char),
    Backspace,
    Up,
    Down,
    Left,
    Right,
    /// Any key that the dashboard ignores
    Other,
}

} // verus!
