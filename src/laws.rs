//! Properties that relate the eye and base-direction rules to one another.
use vstd::prelude::*;
use crate::base::{
    horizontal_base_of, horizontal_sign, resolved_horizontal_base, vertical_base_of,
    vertical_sign,
};
use crate::eye::{nasal_factor, Eye};

verus! {

/// The nasal flip mirrors the two eyes: the left eye's factor is the
/// negation of the right eye's.
pub proof fn lemma_nasal_flip_mirrors()
    ensures
        nasal_factor(Eye::OS) == -nasal_factor(Eye::OD),
        nasal_factor(Eye::OD) * nasal_factor(Eye::OD) == 1,
{
}

/// Eye mirroring: a spectacle-plane value of one sign before the right eye
/// and of the opposite sign before the left eye name the same clinical base.
pub proof fn lemma_eye_mirroring(lab_negative: bool)
    ensures
        resolved_horizontal_base(Eye::OD, lab_negative) == resolved_horizontal_base(
            Eye::OS,
            !lab_negative,
        ),
{
}

/// The signed clinical horizontal prism has the sign of the spectacle-plane
/// value times the eye's nasal factor: the same sign before the right eye,
/// the opposite sign before the left eye.
pub proof fn lemma_clinical_sign_of_lab_value(eye: Eye, lab_negative: bool)
    ensures
        horizontal_sign(resolved_horizontal_base(eye, lab_negative)) == (if lab_negative {
            -nasal_factor(eye)
        } else {
            nasal_factor(eye)
        }),
{
}

/// A pure-sphere lens of power `power` decentred by `nasal_dec` towards the
/// nose (both in any integer unit) gets the same clinical horizontal base
/// before either eye. By Prentice's rule the spectacle-plane horizontal
/// value is `power` times the negated spectacle-plane decentration, and the
/// nasal flip applied to the decentration cancels the mirrored base rule.
pub proof fn lemma_pure_sphere_base_independent_of_eye(power: int, nasal_dec: int)
    requires
        power * nasal_dec != 0,
    ensures
        ({
            let lab_od = power * (-(nasal_factor(Eye::OD) * nasal_dec));
            let lab_os = power * (-(nasal_factor(Eye::OS) * nasal_dec));
            resolved_horizontal_base(Eye::OD, lab_od < 0) == resolved_horizontal_base(
                Eye::OS,
                lab_os < 0,
            )
        }),
{
    let lab_od = power * (-(nasal_factor(Eye::OD) * nasal_dec));
    let lab_os = power * (-(nasal_factor(Eye::OS) * nasal_dec));
    assert(lab_od == -(power * nasal_dec)) by (nonlinear_arith)
        requires
            lab_od == power * (-(1 * nasal_dec)),
    ;
    assert(lab_os == power * nasal_dec) by (nonlinear_arith)
        requires
            lab_os == power * (-(-1 * nasal_dec)),
    ;
}

/// Building a base from the sign of a value and reading its sign back gives
/// a negative sign exactly when the value was negative.
pub proof fn lemma_sign_round_trip(negative: bool)
    ensures
        (horizontal_sign(horizontal_base_of(negative)) < 0) == negative,
        (vertical_sign(vertical_base_of(negative)) < 0) == negative,
{
}

} // verus!
