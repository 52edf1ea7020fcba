use opticalc::{Eye, HorizontalBase, VerticalBase};

#[test]
fn nasal_sign_is_positive_for_right_eye_and_negative_for_left() {
    assert_eq!(Eye::OD.nasal_sign(), 1);
    assert_eq!(Eye::OS.nasal_sign(), -1);
}

#[test]
fn horizontal_from_sign_negative_is_base_in() {
    assert_eq!(HorizontalBase::from_sign(true), HorizontalBase::In);
    assert_eq!(HorizontalBase::from_sign(false), HorizontalBase::Out);
}

#[test]
fn vertical_from_sign_negative_is_base_down() {
    assert_eq!(VerticalBase::from_sign(true), VerticalBase::Down);
    assert_eq!(VerticalBase::from_sign(false), VerticalBase::Up);
}

#[test]
fn horizontal_signs_follow_clinical_convention() {
    assert_eq!(HorizontalBase::In.sign(), -1);
    assert_eq!(HorizontalBase::Out.sign(), 1);
}

#[test]
fn vertical_signs_follow_clinical_convention() {
    assert_eq!(VerticalBase::Up.sign(), 1);
    assert_eq!(VerticalBase::Down.sign(), -1);
}

#[test]
fn right_eye_reads_the_spectacle_plane_sign_directly() {
    assert_eq!(HorizontalBase::for_eye(Eye::OD, true), HorizontalBase::In);
    assert_eq!(HorizontalBase::for_eye(Eye::OD, false), HorizontalBase::Out);
}

#[test]
fn left_eye_reads_the_spectacle_plane_sign_mirrored() {
    assert_eq!(HorizontalBase::for_eye(Eye::OS, true), HorizontalBase::Out);
    assert_eq!(HorizontalBase::for_eye(Eye::OS, false), HorizontalBase::In);
}

#[test]
fn pure_sphere_nasal_decentration_is_base_in_for_both_eyes() {
    // +3.00 DS decentred 5 mm in: the spectacle-plane value is
    // -3.0 * (5.0 * nasal_sign) / 10, so -1.5 before OD and +1.5 before OS.
    let power = 3.0_f64;
    let nasal_mm = 5.0_f64;
    let lab_od = power * -(nasal_mm * f64::from(Eye::OD.nasal_sign())) / 10.0;
    let lab_os = power * -(nasal_mm * f64::from(Eye::OS.nasal_sign())) / 10.0;
    assert_eq!(lab_od, -1.5);
    assert_eq!(lab_os, 1.5);
    let od = HorizontalBase::for_eye(Eye::OD, lab_od < 0.0);
    let os = HorizontalBase::for_eye(Eye::OS, lab_os < 0.0);
    assert_eq!(od, HorizontalBase::In);
    assert_eq!(os, HorizontalBase::In);
    assert_eq!(lab_od.abs() * f64::from(od.sign()), -1.5);
    assert_eq!(lab_os.abs() * f64::from(os.sign()), -1.5);
}

#[test]
fn mirrored_signs_give_the_same_base_across_eyes() {
    for negative in [true, false] {
        assert_eq!(
            HorizontalBase::for_eye(Eye::OD, negative),
            HorizontalBase::for_eye(Eye::OS, !negative)
        );
    }
}

#[test]
fn zero_amount_shows_no_base() {
    // Zero decentration gives a zero value, which is not negative.
    let h = HorizontalBase::for_eye(Eye::OD, false);
    let v = VerticalBase::from_sign(false);
    assert_eq!(h.shown(true), None);
    assert_eq!(v.shown(true), None);
    assert_eq!(HorizontalBase::In.shown(true), None);
    assert_eq!(VerticalBase::Down.shown(true), None);
}

#[test]
fn nonzero_amount_shows_its_base() {
    assert_eq!(HorizontalBase::In.shown(false), Some(HorizontalBase::In));
    assert_eq!(HorizontalBase::Out.shown(false), Some(HorizontalBase::Out));
    assert_eq!(VerticalBase::Up.shown(false), Some(VerticalBase::Up));
    assert_eq!(VerticalBase::Down.shown(false), Some(VerticalBase::Down));
}

#[test]
fn from_sign_then_sign_keeps_the_sign() {
    assert!(HorizontalBase::from_sign(true).sign() < 0);
    assert!(HorizontalBase::from_sign(false).sign() > 0);
    assert!(VerticalBase::from_sign(true).sign() < 0);
    assert!(VerticalBase::from_sign(false).sign() > 0);
}
