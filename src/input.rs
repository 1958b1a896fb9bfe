use vstd::prelude::*;

verus! {

/// The keys the controls respond to; every other key is `Other`.
#[derive(Clone, Copy, Debug, PartialEq, Eq, Structural)]
pub enum Key {
    F3,
    Space,
    Escape,
    Q,
    Left,
    Right,
    Other,
}

/// What the run loop should do after an input event.
#[derive(Clone, Copy, Debug, PartialEq, Eq, Structural)]
pub enum Flow {
    /// Keep running.
    Continue,
    /// End the program.
    Quit,
}

} // verus!
