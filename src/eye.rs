//! Which eye a lens sits before, and how that mirrors the nasal direction.
use vstd::prelude::*;

verus! {

/// Defines the eye.
#[derive(Debug, Clone, Copy, PartialEq, Eq, Structural)]
pub enum Eye {
    /// Right eye.
    OD,
    /// Left eye.
    OS,
}

/// The factor that carries a nasal-positive horizontal quantity into the
/// spectacle-plane frame. For the right eye nasal is the frame's positive
/// side; for the left eye it is the opposite side.
pub open spec fn nasal_factor(eye: Eye) -> int {
    match eye {
        Eye::OD => 1,
        Eye::OS => -1,
    }
}

impl Eye {
    /// The sign (`1` or `-1`) by which a nasal-positive horizontal
    /// decentration is multiplied to give its spectacle-plane value.
    pub fn nasal_sign(self) -> (r: i8)
        ensures
            r as int == nasal_factor(self),
    {
        match self {
            Eye::OD => 1,
            Eye::OS => -1,
        }
    }
}

} // verus!
