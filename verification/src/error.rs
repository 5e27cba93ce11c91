//! The error type of the library.
//!
//! The command builders never fail and the decoders are best-effort (a field
//! that cannot be parsed is simply left unset), so errors arise only where a
//! text must name one of a closed set of keywords.

use vstd::prelude::*;

verus! {

#[derive(Clone, Copy, Debug, PartialEq, Eq, Structural)]
pub enum Error {
    /// A text named neither `vi` nor `emacs`.
    ParseStatusKeys,
    /// A text named neither `on` nor `off`.
    ParseSwitch,
}

impl Error {
    /// A short description of the error.
    pub fn message(&self) -> (r: &'static str)
        ensures
            *self is ParseStatusKeys ==> r@ == "expected vi or emacs"@,
            *self is ParseSwitch ==> r@ == "expected on or off"@,
    {
        match self {
            Error::ParseStatusKeys => "expected vi or emacs",
            Error::ParseSwitch => "expected on or off",
        }
    }
}

} // verus!
