use orbit_water::orbit::{
    clamp_angle, orbit, orbit_position, CameraSettings, Direction, EulerAngles, FrameInput,
    SettingsError, DEFAULT_PITCH_LIMIT,
};

fn level() -> EulerAngles {
    EulerAngles { yaw: 0, pitch: 0, roll: 0 }
}

fn input(dx: i32, dy: i32, primary: bool, secondary: bool, elapsed_us: u32) -> FrameInput {
    FrameInput {
        pointer_dx: dx,
        pointer_dy: dy,
        primary_held: primary,
        secondary_held: secondary,
        elapsed_us,
    }
}

#[test]
fn drag_right_turns_yaw_left() {
    let s = CameraSettings::default();
    let r = orbit(level(), input(100, 0, true, false, 16_000), &s);
    assert_eq!(r.yaw, -400_000_000);
    assert_eq!(r.pitch, 0);
    assert_eq!(r.roll, 0);
}

#[test]
fn drag_down_pitches() {
    let s = CameraSettings::default();
    let r = orbit(level(), input(0, 10, true, false, 16_000), &s);
    assert_eq!(r.pitch, -30_000_000);
    assert_eq!(r.yaw, 0);
}

#[test]
fn pitch_clamped_for_huge_drag() {
    let s = CameraSettings::default();
    let up = orbit(level(), input(0, -1_000_000, true, false, 16_000), &s);
    assert_eq!(up.pitch, DEFAULT_PITCH_LIMIT);
    let down = orbit(level(), input(0, i32::MAX, true, false, 16_000), &s);
    assert_eq!(down.pitch, -DEFAULT_PITCH_LIMIT);
}

#[test]
fn motion_without_button_is_ignored() {
    let s = CameraSettings::default();
    let a = EulerAngles { yaw: 5, pitch: 7, roll: 9 };
    let r = orbit(a, input(300, -200, false, false, 16_000), &s);
    assert_eq!(r, a);
}

#[test]
fn zero_input_changes_nothing() {
    let s = CameraSettings::default();
    let a = EulerAngles { yaw: 1_000, pitch: -2_000, roll: 3_000 };
    assert_eq!(orbit(a, input(0, 0, false, false, 16_000), &s), a);
}

#[test]
fn drag_does_not_depend_on_time() {
    let s = CameraSettings::default();
    let a = orbit(level(), input(40, 25, true, false, 10_000), &s);
    let b = orbit(level(), input(40, 25, true, false, 20_000), &s);
    assert_eq!(a.yaw, b.yaw);
    assert_eq!(a.pitch, b.pitch);
    assert_eq!(a.yaw, -160_000_000);
    assert_eq!(a.pitch, -75_000_000);
}

#[test]
fn roll_doubles_with_time() {
    let s = CameraSettings::default();
    let a = orbit(level(), input(0, 0, false, true, 10_000), &s);
    let b = orbit(level(), input(0, 0, false, true, 20_000), &s);
    assert_eq!(a.roll, 10_000_000);
    assert_eq!(b.roll, 20_000_000);
}

#[test]
fn clamp_angle_bounds() {
    assert_eq!(clamp_angle(-5, -3, 3), -3);
    assert_eq!(clamp_angle(5, -3, 3), 3);
    assert_eq!(clamp_angle(2, -3, 3), 2);
}

#[test]
fn default_settings() {
    let s = CameraSettings::default();
    assert_eq!(s.orbit_distance, 20_000_000);
    assert_eq!(s.pitch_speed, 3_000_000);
    assert_eq!(s.yaw_speed, 4_000_000);
    assert_eq!(s.roll_speed, 1_000);
    assert_eq!(s.pitch_min, -1_560_796_327);
    assert_eq!(s.pitch_max, 1_560_796_327);
    assert!(s.is_valid());
}

#[test]
fn settings_errors() {
    assert_eq!(CameraSettings::new(1, 1, 5, 5, 1, 1), Err(SettingsError::EmptyPitchRange));
    assert_eq!(
        CameraSettings::new(1, 1, -1_570_796_327, 5, 1, 1),
        Err(SettingsError::PitchOutOfRange)
    );
    assert_eq!(CameraSettings::new(0, 1, -5, 5, 1, 1), Err(SettingsError::ZeroDistance));
    assert_eq!(
        CameraSettings::new(1, 1, -5, 5, 1_000_000_001, 1),
        Err(SettingsError::RollSpeedTooLarge)
    );
    let ok = CameraSettings::new(7, 2, -5, 5, 3, 4).unwrap();
    assert_eq!(ok.orbit_distance, 7);
    assert_eq!(ok.yaw_speed, 4);
    assert!(ok.is_valid());
}

#[test]
fn position_is_behind_forward() {
    let p = orbit_position(Direction { x: 0, y: 0, z: -1_000_000 }, 20_000_000);
    assert_eq!(p.x, 0);
    assert_eq!(p.y, 0);
    assert_eq!(p.z, 20_000_000_000_000);
    let q = orbit_position(Direction { x: 577_350, y: -577_350, z: 577_350 }, 2);
    assert_eq!((q.x, q.y, q.z), (-1_154_700, 1_154_700, -1_154_700));
}
