//! Prism base directions and the rules that resolve them from signed values.
//!
//! Horizontal prism is signed Base Out positive and Base In negative;
//! vertical prism is signed Base Up positive and Base Down negative. A value
//! of zero carries the positive direction but reports no base at all.
use vstd::prelude::*;
use crate::eye::{nasal_factor, Eye};

verus! {

/// Base direction for horizontal prism relative to the patient.
#[derive(Debug, Clone, Copy, PartialEq, Eq, Structural)]
pub enum HorizontalBase {
    /// Base In (BI): prism base oriented toward the patient's nose.
    In,
    /// Base Out (BO): prism base oriented toward the patient's periphery.
    Out,
}

/// Base direction for vertical prism.
#[derive(Debug, Clone, Copy, PartialEq, Eq, Structural)]
pub enum VerticalBase {
    /// Base Up (BU): prism base oriented upward.
    Up,
    /// Base Down (BD): prism base oriented downward.
    Down,
}

/// The horizontal base of a signed clinical value: negative is Base In,
/// zero and positive are Base Out.
pub open spec fn horizontal_base_of(negative: bool) -> HorizontalBase {
    if negative {
        HorizontalBase::In
    } else {
        HorizontalBase::Out
    }
}

/// The vertical base of a signed value: negative is Base Down, zero and
/// positive are Base Up.
pub open spec fn vertical_base_of(negative: bool) -> VerticalBase {
    if negative {
        VerticalBase::Down
    } else {
        VerticalBase::Up
    }
}

/// The sign that a horizontal base gives a prism amount.
pub open spec fn horizontal_sign(base: HorizontalBase) -> int {
    match base {
        HorizontalBase::In => -1,
        HorizontalBase::Out => 1,
    }
}

/// The sign that a vertical base gives a prism amount.
pub open spec fn vertical_sign(base: VerticalBase) -> int {
    match base {
        VerticalBase::Up => 1,
        VerticalBase::Down => -1,
    }
}

/// The clinical horizontal base of a value computed in the spectacle-plane
/// frame. The right eye reads that frame as it is; for the left eye nasal
/// is mirrored, so the same sign names the opposite base.
pub open spec fn resolved_horizontal_base(eye: Eye, lab_negative: bool) -> HorizontalBase {
    match eye {
        Eye::OD => horizontal_base_of(lab_negative),
        Eye::OS => horizontal_base_of(!lab_negative),
    }
}

impl HorizontalBase {
    /// The base of a signed clinical value, told whether it is negative.
    pub fn from_sign(negative: bool) -> (r: Self)
        ensures
            r == horizontal_base_of(negative),
    {
        if negative {
            HorizontalBase::In
        } else {
            HorizontalBase::Out
        }
    }

    /// The base of a horizontal value computed in the spectacle-plane frame
    /// before `eye`, told whether that value is negative.
    pub fn for_eye(eye: Eye, lab_negative: bool) -> (r: Self)
        ensures
            r == resolved_horizontal_base(eye, lab_negative),
    {
        match eye {
            Eye::OD => HorizontalBase::from_sign(lab_negative),
            Eye::OS => HorizontalBase::from_sign(!lab_negative),
        }
    }

    /// `-1` for Base In, `1` for Base Out.
    pub fn sign(self) -> (r: i8)
        ensures
            r as int == horizontal_sign(self),
    {
        match self {
            HorizontalBase::In => -1,
            HorizontalBase::Out => 1,
        }
    }

    /// The base as reported for a prism: none when the amount is zero.
    pub fn shown(self, amount_is_zero: bool) -> (r: Option<Self>)
        ensures
            r == (if amount_is_zero { None } else { Some(self) }),
    {
        if amount_is_zero {
            None
        } else {
            Some(self)
        }
    }
}

impl VerticalBase {
    /// The base of a signed value, told whether it is negative.
    pub fn from_sign(negative: bool) -> (r: Self)
        ensures
            r == vertical_base_of(negative),
    {
        if negative {
            VerticalBase::Down
        } else {
            VerticalBase::Up
        }
    }

    /// `1` for Base Up, `-1` for Base Down.
    pub fn sign(self) -> (r: i8)
        ensures
            r as int == vertical_sign(self),
    {
        match self {
            VerticalBase::Up => 1,
            VerticalBase::Down => -1,
        }
    }

    /// The base as reported for a prism: none when the amount is zero.
    pub fn shown(self, amount_is_zero: bool) -> (r: Option<Self>)
        ensures
            r == (if amount_is_zero { None } else { Some(self) }),
    {
        if amount_is_zero {
            None
        } else {
            Some(self)
        }
    }
}

} // verus!
