//! The pointer buttons that events distinguish.

use vstd::prelude::*;

verus! {

/// A button of the pointing device.
#[derive(Debug, Clone, Copy, PartialEq, Eq, Hash, Structural)]
pub enum MouseButton {
    Left,
    Right,
    Middle,
}

impl MouseButton {
    /// The lower-case name of the button.
    pub open spec fn label(self) -> Seq<char> {
        match self {
            MouseButton::Left => "left"@,
            MouseButton::Right => "right"@,
            MouseButton::Middle => "middle"@,
        }
    }

    /// The lower-case name of the button, as a static string.
    pub fn as_str(&self) -> (name: &'static str)
        ensures
            name@ == self.label(),
    {
        match self {
            MouseButton::Left => "left",
            MouseButton::Right => "right",
            MouseButton::Middle => "middle",
        }
    }

    /// The lower-case name of the button, as an owned string.
    pub fn to_string(&self) -> (name: String)
        ensures
            name@ == self.label(),
    {
        self.as_str().to_owned()
    }
}

} // verus!
