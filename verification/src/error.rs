//! The ways a session refuses a call.

use vstd::prelude::*;

verus! {

/// Why a call on a session was refused.
#[derive(Clone, Copy, Debug, PartialEq, Eq, Structural)]
pub enum XError {
    /// No connection to a display could be opened.
    ConnectionFailed,
    /// The display has no visual of the requested depth and class.
    NoMatchingVisual,
    /// The named color was never added to the session.
    ColorNotFound,
    /// The call needs a window, and none was created yet.
    NoWindow,
}

impl XError {
    /// Whether nothing can be done but to give the session up. Every other
    /// error leaves room for the same call with corrected arguments.
    pub open spec fn spec_is_fatal(self) -> bool {
        self == XError::ConnectionFailed
    }

    /// Whether nothing can be done but to give the session up.
    pub fn is_fatal(&self) -> (fatal: bool)
        ensures
            fatal == self.spec_is_fatal(),
    {
        match self {
            XError::ConnectionFailed => true,
            _ => false,
        }
    }

    /// A sentence that names the error.
    pub fn message(&self) -> (text: &'static str)
        ensures
            text@ == self.spec_message(),
    {
        match self {
            XError::ConnectionFailed => "Could not open the display.",
            XError::NoMatchingVisual => "Could not find a matching visual.",
            XError::ColorNotFound => "Could not find named color.",
            XError::NoWindow => "Could not find a window to draw on.",
        }
    }

    /// The sentence that names the error.
    pub open spec fn spec_message(self) -> Seq<char> {
        match self {
            XError::ConnectionFailed => "Could not open the display."@,
            XError::NoMatchingVisual => "Could not find a matching visual."@,
            XError::ColorNotFound => "Could not find named color."@,
            XError::NoWindow => "Could not find a window to draw on."@,
        }
    }
}

} // verus!
