use vstd::prelude::*;

verus! {

/// What pointer input does in the editor.
#[derive(Clone, Copy, Debug, PartialEq, Eq, Structural)]
pub enum Mode {
    Select,
    Camera,
    Edit,
}

/// A request raised by a widget for the editor to carry out.
#[derive(Clone, Debug, PartialEq, Eq)]
pub enum Command {
    /// Start dragging the function with the given textual name.
    SetDragFunction(String),
}

} // verus!
