//! What can go wrong while the playing field is set up.

use vstd::prelude::*;

verus! {

/// The ways in which detecting the playing area can fail.
#[derive(Clone, Copy, Debug, PartialEq, Eq, Structural)]
pub enum ErrorKind {
    /// The playing area was seen larger than the projected screen.
    AreaBiggerThanScreen,
    /// No playing area large enough was seen.
    TooSmallArea,
}

impl ErrorKind {
    /// The message of each kind, as a sequence of characters.
    pub open spec fn message(self) -> Seq<char> {
        match self {
            ErrorKind::AreaBiggerThanScreen => "Detected playing area is larger than projected area. Re-run with '-f' (fullscreen)"@,
            ErrorKind::TooSmallArea => "Can't detect playing area"@,
        }
    }

    /// The message to show the user for this kind of failure.
    pub fn as_str(&self) -> (text: &'static str)
        ensures
            text@ == self.message(),
    {
        match *self {
            ErrorKind::AreaBiggerThanScreen => {
                "Detected playing area is larger than projected area. Re-run with '-f' (fullscreen)"
            },
            ErrorKind::TooSmallArea => "Can't detect playing area",
        }
    }
}

} // verus!
