use pendulum::controls::{control_for_scancode, Control};

#[test]
fn arrow_keys_adjust_gravity_and_mass() {
    assert_eq!(control_for_scancode(57416), Some(Control::IncreaseGravity));
    assert_eq!(control_for_scancode(57424), Some(Control::DecreaseGravity));
    assert_eq!(control_for_scancode(57419), Some(Control::DecreaseMass));
    assert_eq!(control_for_scancode(57421), Some(Control::IncreaseMass));
}

#[test]
fn r_key_resets() {
    assert_eq!(control_for_scancode(19), Some(Control::Reset));
}

#[test]
fn unmapped_keys_are_ignored() {
    assert_eq!(control_for_scancode(0), None);
    assert_eq!(control_for_scancode(20), None);
    assert_eq!(control_for_scancode(57417), None);
    assert_eq!(control_for_scancode(u32::MAX), None);
}
