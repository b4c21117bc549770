use scene_control::input::{KeySnapshot, KeyState, KeyboardState};
use scene_control::movement::{movement_direction, DirVec};
use scene_control::scene::{scene_setup, PLAYER_INDEX};
use scene_control::gesture::CameraRotateOverTime;
use scene_control::systems::controller;
use scene_control::world::World;

fn keys_held(a: bool, d: bool, w: bool, s: bool) -> KeyboardState {
    let mut keys = KeyboardState::new();
    keys.update(KeySnapshot { a, d, w, s, e: false, q: false });
    keys
}

#[test]
fn key_state_machine_transitions() {
    let mut k = KeyState::NotPressed;
    k = k.step(true);
    assert_eq!(k, KeyState::JustPressed);
    assert!(k.pressed());
    assert!(k.just_pressed());
    k = k.step(true);
    assert_eq!(k, KeyState::Held);
    assert!(k.pressed());
    assert!(!k.just_pressed());
    k = k.step(false);
    assert_eq!(k, KeyState::JustReleased);
    assert!(!k.pressed());
    k = k.step(false);
    assert_eq!(k, KeyState::NotPressed);
    k = k.step(true);
    assert_eq!(k, KeyState::JustPressed);
}

#[test]
fn all_sixteen_key_combinations() {
    // Expected sums of the diagonal-biased basis vectors:
    // A -> (1, -1), D -> (-1, 1), W -> (1, 1), S -> (-1, -1).
    let mut checked: usize = 0;
    let combos: Vec<(bool, bool, bool, bool)> = (0..16usize)
        .map(|m| (m & 1 != 0, m & 2 != 0, m & 4 != 0, m & 8 != 0))
        .collect();
    for (a, d, w, s) in combos {
        let expected_x = (a as i64) - (d as i64) + (w as i64) - (s as i64);
        let expected_z = -(a as i64) + (d as i64) + (w as i64) - (s as i64);
        let v = movement_direction(&keys_held(a, d, w, s));
        assert_eq!(v.x, expected_x);
        assert_eq!(v.z, expected_z);
        // Every nonzero sum lies on one of the eight compass directions:
        // pure axis, or pure diagonal with equal magnitudes.
        if v.x != 0 || v.z != 0 {
            assert!(v.z == 0 || v.x == 0 || v.x == v.z || v.x == -v.z);
        }
        checked += 1;
    }
    assert_eq!(checked, 16);
}

#[test]
fn single_key_gives_pure_diagonal() {
    assert_eq!(movement_direction(&keys_held(true, false, false, false)), DirVec { x: 1, z: -1 });
    assert_eq!(movement_direction(&keys_held(false, true, false, false)), DirVec { x: -1, z: 1 });
    assert_eq!(movement_direction(&keys_held(false, false, true, false)), DirVec { x: 1, z: 1 });
    assert_eq!(movement_direction(&keys_held(false, false, false, true)), DirVec { x: -1, z: -1 });
}

#[test]
fn adjacent_keys_combine_to_axis() {
    // A+W cancel on z and add on x: an axis-aligned direction.
    assert_eq!(movement_direction(&keys_held(true, false, true, false)), DirVec { x: 2, z: 0 });
    assert_eq!(movement_direction(&keys_held(false, true, false, true)), DirVec { x: -2, z: 0 });
    assert_eq!(movement_direction(&keys_held(false, true, true, false)), DirVec { x: 0, z: 2 });
    assert_eq!(movement_direction(&keys_held(true, false, false, true)), DirVec { x: 0, z: -2 });
}

#[test]
fn opposite_keys_cancel() {
    assert_eq!(movement_direction(&keys_held(true, true, false, false)), DirVec { x: 0, z: 0 });
    assert_eq!(movement_direction(&keys_held(false, false, true, true)), DirVec { x: 0, z: 0 });
    assert_eq!(movement_direction(&keys_held(true, true, true, true)), DirVec { x: 0, z: 0 });
}

#[test]
fn opposite_keys_zero_net_translation() {
    let mut world = World::new();
    scene_setup(&mut world);
    let mut rot = CameraRotateOverTime::default();
    let before = world.entities[PLAYER_INDEX].transform;
    let r = controller(&mut world, &mut rot, &keys_held(true, true, false, false), 16_000_000);
    assert!(r.is_ok());
    assert_eq!(world.entities[PLAYER_INDEX].transform, before);
}

#[test]
fn axis_step_moves_whole_units() {
    let mut world = World::new();
    scene_setup(&mut world);
    let mut rot = CameraRotateOverTime::default();
    // A+W: direction (2, 0), an axis step of CAMERA_SPEED * dt stored units.
    let r = controller(&mut world, &mut rot, &keys_held(true, false, true, false), 1_000_000);
    assert!(r.is_ok());
    let t = world.entities[PLAYER_INDEX].transform;
    assert_eq!(t.x.units, 15_000_000);
    assert_eq!(t.x.diag, 0);
    assert_eq!(t.z.units, 0);
    assert_eq!(t.z.diag, 0);
    assert_eq!(t.y.units, 500_000_000);
    assert_eq!(t.yaw, 0);
}

#[test]
fn diagonal_step_moves_diag_units() {
    let mut world = World::new();
    scene_setup(&mut world);
    let mut rot = CameraRotateOverTime::default();
    // W alone: direction (1, 1), a diagonal step: both components advance by
    // (CAMERA_SPEED * dt) / sqrt(2), held exactly in the diag parts.
    let r = controller(&mut world, &mut rot, &keys_held(false, false, true, false), 2_000_000);
    assert!(r.is_ok());
    let t = world.entities[PLAYER_INDEX].transform;
    assert_eq!(t.x.units, 0);
    assert_eq!(t.x.diag, 30_000_000);
    assert_eq!(t.z.units, 0);
    assert_eq!(t.z.diag, 30_000_000);
}

#[test]
fn movement_does_not_touch_other_entities() {
    let mut world = World::new();
    scene_setup(&mut world);
    let mut rot = CameraRotateOverTime::default();
    let camera_before = world.entities[1];
    let cube_before = world.entities[4];
    let r = controller(&mut world, &mut rot, &keys_held(true, false, true, false), 1_000_000);
    assert!(r.is_ok());
    assert_eq!(world.entities[1], camera_before);
    assert_eq!(world.entities[4], cube_before);
}
