use scene_control::gesture::{CameraRotateOverTime, GestureTimer};
use scene_control::input::{KeySnapshot, KeyboardState};
use scene_control::scene::{scene_setup, PLAYER_INDEX};
use scene_control::systems::{camera_rotation_helper, controller};
use scene_control::world::World;
use scene_control::CAMERA_ROTATE_DURATION_NS;

fn setup() -> (World, CameraRotateOverTime, KeyboardState) {
    let mut world = World::new();
    scene_setup(&mut world);
    (world, CameraRotateOverTime::default(), KeyboardState::new())
}

fn frame(keys: &mut KeyboardState, snap: KeySnapshot) -> KeyboardState {
    keys.update(snap);
    *keys
}

fn idle_snap() -> KeySnapshot {
    KeySnapshot { a: false, d: false, w: false, s: false, e: false, q: false }
}

fn press_e() -> KeySnapshot {
    KeySnapshot { e: true, ..idle_snap() }
}

fn press_q() -> KeySnapshot {
    KeySnapshot { q: true, ..idle_snap() }
}

#[test]
fn default_state_is_idle_and_paused() {
    let rot = CameraRotateOverTime::default();
    assert!(rot.unlocked);
    assert_eq!(rot.direction, 0);
    assert!(rot.timer.paused);
    assert_eq!(rot.timer.elapsed_ns, 0);
    assert_eq!(rot.timer.duration_ns, CAMERA_ROTATE_DURATION_NS);
}

#[test]
fn fresh_clockwise_press_arms() {
    let (mut world, mut rot, mut keys) = setup();
    let k = frame(&mut keys, press_e());
    let r = controller(&mut world, &mut rot, &k, 16_000_000);
    assert!(r.is_ok());
    assert!(!rot.unlocked);
    assert_eq!(rot.direction, 1);
    assert_eq!(rot.timer.elapsed_ns, 0);
    assert!(!rot.timer.paused);
}

#[test]
fn fresh_counterclockwise_press_arms() {
    let (mut world, mut rot, mut keys) = setup();
    let k = frame(&mut keys, press_q());
    let r = controller(&mut world, &mut rot, &k, 16_000_000);
    assert!(r.is_ok());
    assert!(!rot.unlocked);
    assert_eq!(rot.direction, -1);
    assert_eq!(rot.timer.elapsed_ns, 0);
    assert!(!rot.timer.paused);
}

#[test]
fn press_while_locked_out_has_no_effect() {
    let (mut world, mut rot, mut keys) = setup();
    let k = frame(&mut keys, press_e());
    controller(&mut world, &mut rot, &k, 16_000_000).unwrap();
    camera_rotation_helper(&mut rot, &mut world, 16_000_000).unwrap();
    let timer_before: GestureTimer = rot.timer;
    // Release, then a fresh press of the other trigger while locked out.
    let k = frame(&mut keys, idle_snap());
    controller(&mut world, &mut rot, &k, 16_000_000).unwrap();
    let k = frame(&mut keys, press_q());
    controller(&mut world, &mut rot, &k, 16_000_000).unwrap();
    assert_eq!(rot.direction, 1);
    assert_eq!(rot.timer, timer_before);
    assert!(!rot.unlocked);
}

#[test]
fn simultaneous_presses_favor_clockwise() {
    let (mut world, mut rot, mut keys) = setup();
    let k = frame(&mut keys, KeySnapshot { e: true, q: true, ..idle_snap() });
    let r = controller(&mut world, &mut rot, &k, 16_000_000);
    assert!(r.is_ok());
    assert_eq!(rot.direction, 1);
    assert!(!rot.unlocked);
}

// Run whole frames at a fixed delta until the gesture completes; returns the
// number of frames the gesture took.
fn run_gesture_to_completion(
    world: &mut World,
    rot: &mut CameraRotateOverTime,
    delta_ns: u64,
    max_frames: usize,
) -> usize {
    let mut frames: usize = 0;
    while !rot.unlocked && frames < max_frames {
        camera_rotation_helper(rot, world, delta_ns).unwrap();
        frames += 1;
    }
    frames
}

#[test]
fn full_gesture_sums_to_quarter_turn_at_two_frame_rates() {
    // One quarter turn is CAMERA_ROTATE_DURATION_NS yaw units.
    // 200 fps: 5 ms frames, 20 of them.
    let (mut world, mut rot, mut keys) = setup();
    let k = frame(&mut keys, press_e());
    controller(&mut world, &mut rot, &k, 5_000_000).unwrap();
    let yaw0 = world.entities[PLAYER_INDEX].transform.yaw;
    let frames = run_gesture_to_completion(&mut world, &mut rot, 5_000_000, 1000);
    assert_eq!(frames, 20);
    let fast = world.entities[PLAYER_INDEX].transform.yaw - yaw0;
    assert_eq!(fast, CAMERA_ROTATE_DURATION_NS as i64);

    // 20 fps: 50 ms frames, 2 of them. Same total rotation.
    let (mut world, mut rot, mut keys) = setup();
    let k = frame(&mut keys, press_e());
    controller(&mut world, &mut rot, &k, 50_000_000).unwrap();
    let yaw0 = world.entities[PLAYER_INDEX].transform.yaw;
    let frames = run_gesture_to_completion(&mut world, &mut rot, 50_000_000, 1000);
    assert_eq!(frames, 2);
    let slow = world.entities[PLAYER_INDEX].transform.yaw - yaw0;
    assert_eq!(slow, fast);
}

#[test]
fn non_dividing_frame_rate_stays_within_one_frame_of_quarter_turn() {
    // A 60 fps delta (16,666,667 ns) does not divide the gesture duration
    // evenly; the last frame still rotates by its full delta, so the total
    // overshoots the exact quarter turn by the leftover 2 units out of
    // 100,000,000 — far inside any presentation tolerance.
    let (mut world, mut rot, mut keys) = setup();
    let k = frame(&mut keys, press_e());
    controller(&mut world, &mut rot, &k, 16_666_667).unwrap();
    let frames = run_gesture_to_completion(&mut world, &mut rot, 16_666_667, 1000);
    assert_eq!(frames, 6);
    assert_eq!(world.entities[PLAYER_INDEX].transform.yaw, 100_000_002);
}

#[test]
fn counterclockwise_gesture_sums_to_negative_quarter_turn() {
    let (mut world, mut rot, mut keys) = setup();
    let k = frame(&mut keys, press_q());
    controller(&mut world, &mut rot, &k, 10_000_000).unwrap();
    run_gesture_to_completion(&mut world, &mut rot, 10_000_000, 1000);
    assert_eq!(
        world.entities[PLAYER_INDEX].transform.yaw,
        -(CAMERA_ROTATE_DURATION_NS as i64)
    );
}

#[test]
fn finished_edge_reopens_on_that_exact_frame_and_rearms() {
    let (mut world, mut rot, mut keys) = setup();
    let k = frame(&mut keys, press_e());
    controller(&mut world, &mut rot, &k, 50_000_000).unwrap();
    camera_rotation_helper(&mut rot, &mut world, 50_000_000).unwrap();
    assert!(!rot.unlocked);
    // This frame's tick reaches the duration: the lock opens on it.
    camera_rotation_helper(&mut rot, &mut world, 50_000_000).unwrap();
    assert!(rot.unlocked);
    assert!(rot.timer.paused);
    // A fresh press on the very next frame is accepted.
    let k = frame(&mut keys, idle_snap());
    controller(&mut world, &mut rot, &k, 50_000_000).unwrap();
    let k = frame(&mut keys, press_q());
    controller(&mut world, &mut rot, &k, 50_000_000).unwrap();
    assert!(!rot.unlocked);
    assert_eq!(rot.direction, -1);
    assert_eq!(rot.timer.elapsed_ns, 0);
}

#[test]
fn timer_tick_clamps_to_duration() {
    let mut timer = GestureTimer::new(CAMERA_ROTATE_DURATION_NS);
    let just = timer.tick(CAMERA_ROTATE_DURATION_NS * 3);
    assert!(just);
    assert_eq!(timer.elapsed_ns, CAMERA_ROTATE_DURATION_NS);
    // A later tick is no longer the finished edge.
    let again = timer.tick(1);
    assert!(!again);
    assert_eq!(timer.elapsed_ns, CAMERA_ROTATE_DURATION_NS);
}

#[test]
fn paused_timer_does_not_advance() {
    let mut timer = GestureTimer::new(CAMERA_ROTATE_DURATION_NS);
    timer.pause();
    let just = timer.tick(CAMERA_ROTATE_DURATION_NS);
    assert!(!just);
    assert_eq!(timer.elapsed_ns, 0);
    timer.unpause();
    timer.reset();
    assert_eq!(timer.elapsed_ns, 0);
    assert!(!timer.is_paused());
}

#[test]
fn idle_gesture_applies_no_yaw() {
    let (mut world, mut rot, _) = setup();
    let yaw0 = world.entities[PLAYER_INDEX].transform.yaw;
    camera_rotation_helper(&mut rot, &mut world, 16_000_000).unwrap();
    assert_eq!(world.entities[PLAYER_INDEX].transform.yaw, yaw0);
    assert!(rot.unlocked);
}
