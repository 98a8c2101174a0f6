use orrery::craft::{input_for_key, Craft, CraftInput, Key, Vec3i};

fn v(x: i64, y: i64, z: i64) -> Vec3i {
    Vec3i { x, y, z }
}

#[test]
fn forward_press_moves_towards_negative_z() {
    let mut c = Craft::new(200, 50, 200);
    assert!(c.apply_input(CraftInput::Forward));
    assert_eq!(c.position, v(0, 0, -200));
    assert_eq!(c.rotation, v(0, 0, 0));
    assert_eq!(c.position.z as f32 / 1000.0, -0.2);
}

#[test]
fn rotate_right_press_turns_about_y() {
    let mut c = Craft::new(200, 50, 200);
    assert!(c.apply_input(CraftInput::RotateRight));
    assert_eq!(c.rotation, v(0, 50, 0));
    assert_eq!(c.position, v(0, 0, 0));
    assert_eq!(c.rotation.y as f32 / 1000.0, 0.05);
}

#[test]
fn every_command_moves_one_component() {
    let cases = [
        (CraftInput::Forward, v(0, 0, -7), v(0, 0, 0)),
        (CraftInput::Backward, v(0, 0, 7), v(0, 0, 0)),
        (CraftInput::Left, v(-7, 0, 0), v(0, 0, 0)),
        (CraftInput::Right, v(7, 0, 0), v(0, 0, 0)),
        (CraftInput::Up, v(0, 7, 0), v(0, 0, 0)),
        (CraftInput::Down, v(0, -7, 0), v(0, 0, 0)),
        (CraftInput::RotateLeft, v(0, 0, 0), v(0, -3, 0)),
        (CraftInput::RotateRight, v(0, 0, 0), v(0, 3, 0)),
        (CraftInput::PitchUp, v(0, 0, 0), v(-3, 0, 0)),
        (CraftInput::PitchDown, v(0, 0, 0), v(3, 0, 0)),
    ];
    for (input, position, rotation) in cases {
        let mut c = Craft::new(7, 3, 1000);
        assert!(c.apply_input(input));
        assert_eq!((c.position, c.rotation), (position, rotation), "{:?}", input);
    }
}

#[test]
fn presses_accumulate_without_wraparound() {
    let mut c = Craft::new(200, 50, 200);
    for _ in 0..200 {
        assert!(c.apply_input(CraftInput::RotateRight));
    }
    assert_eq!(c.rotation.y, 10_000);
    assert!(c.apply_input(CraftInput::Forward));
    assert!(c.apply_input(CraftInput::Backward));
    assert_eq!(c.position, v(0, 0, 0));
}

#[test]
fn press_past_the_integer_range_changes_nothing() {
    let mut c = Craft::new(200, 50, 200);
    c.position.z = i64::MIN + 100;
    let before = c;
    assert!(!c.apply_input(CraftInput::Forward));
    assert_eq!(c, before);
    assert!(c.apply_input(CraftInput::Backward));
    assert_eq!(c.position.z, i64::MIN + 300);
}

#[test]
fn keys_bind_to_commands() {
    let cases = [
        (Key::W, Some(CraftInput::Forward)),
        (Key::S, Some(CraftInput::Backward)),
        (Key::A, Some(CraftInput::Left)),
        (Key::D, Some(CraftInput::Right)),
        (Key::Space, Some(CraftInput::Up)),
        (Key::LShift, Some(CraftInput::Down)),
        (Key::Left, Some(CraftInput::RotateLeft)),
        (Key::Right, Some(CraftInput::RotateRight)),
        (Key::Up, Some(CraftInput::PitchUp)),
        (Key::Down, Some(CraftInput::PitchDown)),
        (Key::Other, None),
    ];
    for (key, input) in cases {
        assert_eq!(input_for_key(key), input, "{:?}", key);
    }
}
