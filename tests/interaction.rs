use pendulum::interaction::{FramePlan, Interaction, PointerEffect, GRAB_RADIUS, INNER_RADIUS};

#[test]
fn starts_free_and_integrates() {
    let i = Interaction::new();
    assert!(!i.is_grabbed());
    assert_eq!(i.frame_plan(), FramePlan::Step);
}

#[test]
fn primary_press_on_bob_grabs() {
    let mut i = Interaction::new();
    assert_eq!(i.on_pointer_down(true, true), PointerEffect::BeginGrab);
    assert!(i.is_grabbed());
    assert_eq!(i.frame_plan(), FramePlan::FollowPointer);
}

#[test]
fn press_off_bob_or_other_button_does_nothing() {
    let mut i = Interaction::new();
    assert_eq!(i.on_pointer_down(true, false), PointerEffect::Nothing);
    assert_eq!(i.on_pointer_down(false, true), PointerEffect::Nothing);
    assert!(!i.is_grabbed());
    assert_eq!(i.frame_plan(), FramePlan::Step);
}

#[test]
fn held_bob_stays_held_until_released_on_it() {
    let mut i = Interaction::new();
    i.on_pointer_down(true, true);
    assert_eq!(i.on_pointer_up(true, false), PointerEffect::Nothing);
    assert_eq!(i.on_pointer_up(false, true), PointerEffect::Nothing);
    assert_eq!(i.on_pointer_down(true, true), PointerEffect::BeginGrab);
    assert!(i.is_grabbed());
    assert_eq!(i.frame_plan(), FramePlan::FollowPointer);
    assert_eq!(i.on_pointer_up(true, true), PointerEffect::EndGrab);
    assert!(!i.is_grabbed());
    assert_eq!(i.frame_plan(), FramePlan::Step);
}

#[test]
fn release_on_free_bob_still_zeroes_velocity() {
    let mut i = Interaction::new();
    assert_eq!(i.on_pointer_up(true, true), PointerEffect::EndGrab);
    assert!(!i.is_grabbed());
}

#[test]
fn bob_disc_radii() {
    assert_eq!(GRAB_RADIUS, 28);
    assert_eq!(INNER_RADIUS, 25);
}
