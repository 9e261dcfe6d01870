use mage_chase::motion::{bob_for, facing_for, Bob, Facing, REST_ROTATION, REST_SCALE_Y};
use std::cmp::Ordering;

#[test]
fn moving_right_faces_right() {
    assert_eq!(facing_for(Some(Ordering::Greater)), Some(Facing::Right));
    assert_eq!(Facing::Right.scale_x(), 1);
}

#[test]
fn moving_left_faces_left() {
    assert_eq!(facing_for(Some(Ordering::Less)), Some(Facing::Left));
    assert_eq!(Facing::Left.scale_x(), -1);
}

#[test]
fn no_horizontal_velocity_keeps_the_facing() {
    assert_eq!(facing_for(Some(Ordering::Equal)), None);
    assert_eq!(facing_for(None), None);
}

#[test]
fn facing_follows_the_sign_of_a_real_velocity() {
    assert_eq!(facing_for(12.5f32.partial_cmp(&0.0)), Some(Facing::Right));
    assert_eq!(facing_for((-0.001f32).partial_cmp(&0.0)), Some(Facing::Left));
    assert_eq!(facing_for(0.0f32.partial_cmp(&0.0)), None);
    assert_eq!(facing_for((-0.0f32).partial_cmp(&0.0)), None);
    assert_eq!(facing_for(f32::NAN.partial_cmp(&0.0)), None);
    assert_eq!(facing_for(f32::INFINITY.partial_cmp(&0.0)), Some(Facing::Right));
    assert_eq!(facing_for(f32::NEG_INFINITY.partial_cmp(&0.0)), Some(Facing::Left));
}

#[test]
fn facing_scale_mirrors_the_sprite() {
    let mut scale_x = 1.0f32;
    for (velocity_x, expected) in [(3.0f32, 1.0f32), (0.0, 1.0), (-2.0, -1.0), (0.0, -1.0), (5.0, 1.0)] {
        if let Some(facing) = facing_for(velocity_x.partial_cmp(&0.0)) {
            scale_x = f32::from(facing.scale_x());
        }
        assert_eq!(scale_x, expected);
    }
}

#[test]
fn positive_speed_swings() {
    assert_eq!(bob_for(Some(Ordering::Greater)), Bob::Swing);
    assert_eq!(bob_for(40.0f32.partial_cmp(&0.0)), Bob::Swing);
}

#[test]
fn zero_speed_rests() {
    assert_eq!(bob_for(Some(Ordering::Equal)), Bob::Rest);
    assert_eq!(bob_for(Some(Ordering::Less)), Bob::Rest);
    assert_eq!(bob_for(None), Bob::Rest);
    assert_eq!(bob_for(0.0f32.partial_cmp(&0.0)), Bob::Rest);
    assert_eq!(bob_for(f32::NAN.partial_cmp(&0.0)), Bob::Rest);
}

#[test]
fn rest_pose_is_upright_and_unscaled() {
    assert_eq!(REST_ROTATION, 0);
    assert_eq!(REST_SCALE_Y, 1);
    assert_eq!(f32::from(REST_ROTATION), 0.0);
    assert_eq!(f32::from(REST_SCALE_Y), 1.0);
}

#[test]
fn rest_does_not_depend_on_the_pose_before() {
    for (rotation, scale_y) in [(0.06f32, 1.1f32), (-0.06, 0.9), (0.0, 1.0), (3.0, -7.0)] {
        let mut pose = (rotation, scale_y);
        if bob_for(0.0f32.partial_cmp(&0.0)) == Bob::Rest {
            pose = (f32::from(REST_ROTATION), f32::from(REST_SCALE_Y));
        }
        assert_eq!(pose, (0.0, 1.0));
    }
}

#[test]
fn a_vanishing_speed_rests_while_the_sprite_still_turns() {
    let velocity_x = 1.0e-30f32;
    let speed = (velocity_x * velocity_x).sqrt();
    assert_eq!(speed, 0.0);
    assert_eq!(facing_for(velocity_x.partial_cmp(&0.0)), Some(Facing::Right));
    assert_eq!(bob_for(speed.partial_cmp(&0.0)), Bob::Rest);
}
