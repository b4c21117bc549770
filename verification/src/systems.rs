//! The two per-frame components.
//!
//! `controller` reads the movement keys, advances the player's position by a
//! normalized unit-speed step, and arms the rotation gesture on a fresh
//! press of a rotation-trigger key while idle. `camera_rotation_helper`
//! advances the armed gesture's timer, applies the proportional yaw
//! increment to the player, and re-opens the lock on the finished edge.
//! Both fail (rather than silently no-op) unless exactly one player entity
//! exists.

use vstd::prelude::*;

use crate::gesture::{CameraRotateOverTime, GestureTimer};
use crate::input::KeyboardState;
use crate::movement::{
    dir_x, dir_z, movement_direction, unit_diag_x, unit_diag_z, unit_whole_x, unit_whole_z,
    DirVec,
};
use crate::world::{is_player, Entity, SingleError, Transform, World};
use crate::{CAMERA_ROTATE_DURATION_NS, CAMERA_SPEED, MAX_COORD_MAGNITUDE, MAX_FRAME_NS};

verus! {

/// The planar direction accumulated from the currently held movement keys.
pub open spec fn spec_direction(keys: KeyboardState) -> DirVec {
    DirVec {
        x: dir_x(
            keys.a.spec_pressed(),
            keys.d.spec_pressed(),
            keys.w.spec_pressed(),
            keys.s.spec_pressed(),
        ) as i64,
        z: dir_z(
            keys.a.spec_pressed(),
            keys.d.spec_pressed(),
            keys.w.spec_pressed(),
            keys.s.spec_pressed(),
        ) as i64,
    }
}

/// Gesture state after the trigger check of one frame, given whether each
/// rotation key was freshly pressed. While idle, a fresh clockwise press
/// arms the gesture with direction +1 (it is checked first, so simultaneous
/// presses favor it); otherwise a fresh counter-clockwise press arms it
/// with direction -1. Arming resets the timer to zero and unpauses it.
/// While locked out, trigger keys are ignored entirely.
pub open spec fn spec_trigger(
    s: CameraRotateOverTime,
    just_e: bool,
    just_q: bool,
) -> CameraRotateOverTime {
    if s.unlocked && just_e {
        CameraRotateOverTime {
            timer: GestureTimer {
                elapsed_ns: 0,
                duration_ns: s.timer.duration_ns,
                paused: false,
            },
            direction: 1,
            unlocked: false,
        }
    } else if s.unlocked && just_q {
        CameraRotateOverTime {
            timer: GestureTimer {
                elapsed_ns: 0,
                duration_ns: s.timer.duration_ns,
                paused: false,
            },
            direction: -1i64,
            unlocked: false,
        }
    } else {
        s
    }
}

/// A gesture is in flight and its timer is actively counting.
pub open spec fn spec_gesture_running(s: CameraRotateOverTime) -> bool {
    !s.timer.spec_finished() && !s.timer.paused
}

/// Gesture state after the timer step of one frame: a running timer
/// advances (clamped to the duration), and on the tick that reaches the
/// duration — the finished edge — the state re-pauses the timer and
/// re-opens the lock. A paused or already-finished timer changes nothing.
pub open spec fn spec_advance(s: CameraRotateOverTime, delta_ns: u64) -> CameraRotateOverTime {
    if spec_gesture_running(s) {
        let ticked = s.timer.spec_tick(delta_ns);
        if ticked.spec_finished() {
            CameraRotateOverTime {
                timer: GestureTimer { paused: true, ..ticked },
                direction: s.direction,
                unlocked: true,
            }
        } else {
            CameraRotateOverTime { timer: ticked, ..s }
        }
    } else {
        s
    }
}

/// Yaw added to the player on one frame, in yaw units (one quarter turn is
/// `CAMERA_ROTATE_DURATION_NS` units): a running gesture rotates by
/// `delta_ns * direction`, an idle one by nothing.
pub open spec fn spec_yaw_gain(s: CameraRotateOverTime, delta_ns: u64) -> int {
    if spec_gesture_running(s) {
        s.direction * delta_ns
    } else {
        0
    }
}

/// The transform's mutable coordinates are small enough that one more
/// frame's increment cannot overflow (a machine limit, not a rule of the
/// scene).
pub open spec fn in_motion_bounds(t: Transform) -> bool {
    &&& -MAX_COORD_MAGNITUDE <= t.x.units <= MAX_COORD_MAGNITUDE
    &&& -MAX_COORD_MAGNITUDE <= t.x.diag <= MAX_COORD_MAGNITUDE
    &&& -MAX_COORD_MAGNITUDE <= t.z.units <= MAX_COORD_MAGNITUDE
    &&& -MAX_COORD_MAGNITUDE <= t.z.diag <= MAX_COORD_MAGNITUDE
    &&& -MAX_COORD_MAGNITUDE <= t.yaw <= MAX_COORD_MAGNITUDE
}

/// `t1` is `t0` translated by `step` stored units along the normalized
/// direction of `v`: an axis-aligned direction moves the whole-unit parts,
/// a diagonal direction moves the `1/sqrt(2)` parts, and a zero direction
/// moves nothing. Yaw and height are untouched.
pub open spec fn spec_translated(t0: Transform, t1: Transform, v: DirVec, step: int) -> bool {
    &&& t1.x.units == t0.x.units + unit_whole_x(v) * step
    &&& t1.x.diag == t0.x.diag + unit_diag_x(v) * step
    &&& t1.z.units == t0.z.units + unit_whole_z(v) * step
    &&& t1.z.diag == t0.z.diag + unit_diag_z(v) * step
    &&& t1.y == t0.y
    &&& t1.yaw == t0.yaw
}

/// Per-frame movement controller. Accumulates the planar direction from
/// the held movement keys, translates the unique player by a unit-speed
/// step along it (`CAMERA_SPEED * delta_ns` stored units; opposite keys
/// cancel to a zero direction and no translation), and arms the rotation
/// gesture on a fresh trigger press while idle. Fails, changing nothing,
/// unless exactly one player entity exists.
pub fn controller(
    world: &mut World,
    camera_rotater: &mut CameraRotateOverTime,
    keyboard_input: &KeyboardState,
    delta_ns: u64,
) -> (r: Result<(), SingleError>)
    requires
        old(camera_rotater).wf(),
        delta_ns <= MAX_FRAME_NS,
        forall|i: int|
            0 <= i < old(world).entities@.len() && is_player(#[trigger] old(world).entities@[i])
                ==> in_motion_bounds(old(world).entities@[i].transform),
    ensures
        final(camera_rotater).wf(),
        (r is Ok) <==> (exists|i: int| old(world).spec_is_unique_player(i)),
        match r {
            Ok(_) => {
                &&& *final(camera_rotater) == spec_trigger(
                    *old(camera_rotater),
                    keyboard_input.e.spec_just_pressed(),
                    keyboard_input.q.spec_just_pressed(),
                )
                &&& final(world).ambient == old(world).ambient
                &&& final(world).entities@.len() == old(world).entities@.len()
                &&& forall|i: int|
                    0 <= i < old(world).entities@.len() && !is_player(
                        #[trigger] old(world).entities@[i],
                    ) ==> final(world).entities@[i] == old(world).entities@[i]
                &&& forall|i: int|
                    0 <= i < old(world).entities@.len() && is_player(
                        #[trigger] old(world).entities@[i],
                    ) ==> {
                        &&& spec_translated(
                            old(world).entities@[i].transform,
                            final(world).entities@[i].transform,
                            spec_direction(*keyboard_input),
                            CAMERA_SPEED * delta_ns,
                        )
                        &&& final(world).entities@[i] == (Entity {
                            transform: final(world).entities@[i].transform,
                            ..old(world).entities@[i]
                        })
                    }
            },
            Err(SingleError::NoEntities) => {
                &&& old(world).spec_no_player()
                &&& *final(world) == *old(world)
                &&& *final(camera_rotater) == *old(camera_rotater)
            },
            Err(SingleError::MultipleEntities) => {
                &&& old(world).spec_many_players()
                &&& *final(world) == *old(world)
                &&& *final(camera_rotater) == *old(camera_rotater)
            },
        },
{
    let player_index = match world.single_player() {
        Ok(i) => i,
        Err(e) => {
            return Err(e);
        },
    };

    let v = movement_direction(keyboard_input);

    if camera_rotater.unlocked {
        if keyboard_input.e.just_pressed() {
            camera_rotater.direction = 1;
            camera_rotater.unlocked = false;
            camera_rotater.timer.reset();
            camera_rotater.timer.unpause();
        } else if keyboard_input.q.just_pressed() {
            camera_rotater.direction = -1;
            camera_rotater.unlocked = false;
            camera_rotater.timer.reset();
            camera_rotater.timer.unpause();
        }
    }

    let ghost vd = spec_direction(*keyboard_input);
    proof {
        assert(v == vd);
    }
    let step: i64 = CAMERA_SPEED * (delta_ns as i64);
    let ent = &mut world.entities[player_index];
    if v.x != 0 && v.z != 0 {
        ent.transform.x.diag = ent.transform.x.diag + (if v.x > 0 { step } else { -step });
        ent.transform.z.diag = ent.transform.z.diag + (if v.z > 0 { step } else { -step });
        proof {
            assert(unit_whole_x(vd) == 0 && unit_whole_z(vd) == 0);
            assert(vd.x != 0 && vd.z != 0);
            if v.x > 0 {
                assert(unit_diag_x(vd) == 1);
                assert(unit_diag_x(vd) * step == step as int);
            } else {
                assert(unit_diag_x(vd) == -1);
                assert(unit_diag_x(vd) * step == -(step as int));
            }
            if v.z > 0 {
                assert(unit_diag_z(vd) * step == step as int);
            } else {
                assert(unit_diag_z(vd) * step == -(step as int));
            }
        }
    } else if v.x != 0 {
        ent.transform.x.units = ent.transform.x.units + (if v.x > 0 { step } else { -step });
        proof {
            assert(unit_diag_x(vd) == 0 && unit_diag_z(vd) == 0 && unit_whole_z(vd) == 0);
            assert(unit_whole_x(vd) * step == if v.x > 0 { step as int } else { -step as int });
        }
    } else if v.z != 0 {
        ent.transform.z.units = ent.transform.z.units + (if v.z > 0 { step } else { -step });
        proof {
            assert(unit_diag_x(vd) == 0 && unit_diag_z(vd) == 0 && unit_whole_x(vd) == 0);
            assert(unit_whole_z(vd) * step == if v.z > 0 { step as int } else { -step as int });
        }
    } else {
        proof {
            assert(unit_whole_x(vd) == 0 && unit_whole_z(vd) == 0 && unit_diag_x(vd) == 0
                && unit_diag_z(vd) == 0);
        }
    }

    Ok(())
}

/// Per-frame rotation timer state machine. While the gesture timer is
/// running, it advances the timer by the frame's delta and yaws the unique
/// player by `delta_ns * direction` yaw units — the fixed quarter turn
/// distributed proportionally over the gesture duration. On the tick that
/// reaches the duration it re-pauses the timer and re-opens the lock.
/// Fails, changing nothing, unless exactly one player entity exists.
pub fn camera_rotation_helper(
    camera_rotater: &mut CameraRotateOverTime,
    world: &mut World,
    delta_ns: u64,
) -> (r: Result<(), SingleError>)
    requires
        old(camera_rotater).wf(),
        delta_ns <= MAX_FRAME_NS,
        forall|i: int|
            0 <= i < old(world).entities@.len() && is_player(#[trigger] old(world).entities@[i])
                ==> in_motion_bounds(old(world).entities@[i].transform),
    ensures
        final(camera_rotater).wf(),
        (r is Ok) <==> (exists|i: int| old(world).spec_is_unique_player(i)),
        match r {
            Ok(_) => {
                &&& *final(camera_rotater) == spec_advance(*old(camera_rotater), delta_ns)
                &&& final(world).ambient == old(world).ambient
                &&& final(world).entities@.len() == old(world).entities@.len()
                &&& forall|i: int|
                    0 <= i < old(world).entities@.len() && !is_player(
                        #[trigger] old(world).entities@[i],
                    ) ==> final(world).entities@[i] == old(world).entities@[i]
                &&& forall|i: int|
                    0 <= i < old(world).entities@.len() && is_player(
                        #[trigger] old(world).entities@[i],
                    ) ==> {
                        &&& final(world).entities@[i].transform.yaw == old(
                            world,
                        ).entities@[i].transform.yaw + spec_yaw_gain(
                            *old(camera_rotater),
                            delta_ns,
                        )
                        &&& final(world).entities@[i] == (Entity {
                            transform: (Transform {
                                yaw: final(world).entities@[i].transform.yaw,
                                ..old(world).entities@[i].transform
                            }),
                            ..old(world).entities@[i]
                        })
                    }
            },
            Err(SingleError::NoEntities) => {
                &&& old(world).spec_no_player()
                &&& *final(world) == *old(world)
                &&& *final(camera_rotater) == *old(camera_rotater)
            },
            Err(SingleError::MultipleEntities) => {
                &&& old(world).spec_many_players()
                &&& *final(world) == *old(world)
                &&& *final(camera_rotater) == *old(camera_rotater)
            },
        },
{
    let player_index = match world.single_player() {
        Ok(i) => i,
        Err(e) => {
            return Err(e);
        },
    };

    if !(camera_rotater.timer.finished() || camera_rotater.timer.is_paused()) {
        let just_finished = camera_rotater.timer.tick(delta_ns);
        let ent = &mut world.entities[player_index];
        ent.transform.yaw = ent.transform.yaw + (delta_ns as i64) * camera_rotater.direction;
        if just_finished {
            camera_rotater.unlocked = true;
            camera_rotater.timer.pause();
        }
    }

    Ok(())
}

/// A fresh press of the clockwise-rotate key while idle arms the gesture:
/// the state locks out further triggers, the direction becomes +1, and the
/// timer restarts from zero, running.
pub proof fn lemma_fresh_press_arms(s: CameraRotateOverTime, just_q: bool)
    requires
        s.wf(),
        s.unlocked,
    ensures
        !spec_trigger(s, true, just_q).unlocked,
        spec_trigger(s, true, just_q).direction == 1,
        spec_trigger(s, true, just_q).timer.elapsed_ns == 0,
        !spec_trigger(s, true, just_q).timer.paused,
        spec_trigger(s, true, just_q).wf(),
{
}

/// While a gesture is in flight, fresh presses of either rotate key have no
/// effect at all: no queueing, no overriding the direction or the timer.
pub proof fn lemma_locked_out_ignores_triggers(s: CameraRotateOverTime, just_e: bool, just_q: bool)
    requires
        !s.unlocked,
    ensures
        spec_trigger(s, just_e, just_q) == s,
{
}

/// Simultaneous fresh presses of both rotate keys in one frame arm the
/// gesture clockwise (`direction == +1`): the clockwise key is checked
/// first.
pub proof fn lemma_simultaneous_presses_favor_clockwise(s: CameraRotateOverTime)
    requires
        s.wf(),
        s.unlocked,
    ensures
        spec_trigger(s, true, true).direction == 1,
        !spec_trigger(s, true, true).unlocked,
{
}

/// On the frame whose tick reaches the gesture duration — the finished
/// edge — the lock re-opens on that exact frame, and a fresh trigger press
/// on the very next frame is accepted: it re-arms with a zeroed, running
/// timer.
pub proof fn lemma_finished_edge_reopens(s: CameraRotateOverTime, delta_ns: u64, just_q: bool)
    requires
        s.wf(),
        spec_gesture_running(s),
        s.timer.elapsed_ns + delta_ns >= s.timer.duration_ns,
    ensures
        spec_advance(s, delta_ns).unlocked,
        spec_advance(s, delta_ns).wf(),
        !spec_trigger(spec_advance(s, delta_ns), true, just_q).unlocked,
        spec_trigger(spec_advance(s, delta_ns), true, just_q).timer.elapsed_ns == 0,
        !spec_trigger(spec_advance(s, delta_ns), true, just_q).timer.paused,
{
}

/// State after `n` frames of the rotation timer state machine, each with
/// the same frame delta.
pub open spec fn spec_advance_n(
    s: CameraRotateOverTime,
    delta_ns: u64,
    n: nat,
) -> CameraRotateOverTime
    decreases n,
{
    if n == 0 {
        s
    } else {
        spec_advance(spec_advance_n(s, delta_ns, (n - 1) as nat), delta_ns)
    }
}

/// Total yaw applied to the player over `n` such frames, in yaw units.
pub open spec fn spec_total_yaw_gain(s: CameraRotateOverTime, delta_ns: u64, n: nat) -> int
    decreases n,
{
    if n == 0 {
        0
    } else {
        spec_total_yaw_gain(s, delta_ns, (n - 1) as nat) + spec_yaw_gain(
            spec_advance_n(s, delta_ns, (n - 1) as nat),
            delta_ns,
        )
    }
}

/// While the timer has not yet reached its duration, each frame advances
/// the elapsed time by the delta and yaws by `direction * delta_ns`.
proof fn lemma_running_progress(s: CameraRotateOverTime, delta_ns: u64, n: nat)
    requires
        s.wf(),
        !s.unlocked,
        s.timer.elapsed_ns + n * delta_ns < s.timer.duration_ns,
    ensures
        spec_advance_n(s, delta_ns, n) == (CameraRotateOverTime {
            timer: GestureTimer {
                elapsed_ns: (s.timer.elapsed_ns + n * delta_ns) as u64,
                ..s.timer
            },
            ..s
        }),
        spec_total_yaw_gain(s, delta_ns, n) == s.direction * (n * delta_ns),
    decreases n,
{
    if n == 0 {
        assert(n * delta_ns == 0) by (nonlinear_arith)
            requires
                n == 0,
        ;
        assert(s.direction * (n * delta_ns) == 0) by (nonlinear_arith)
            requires
                n * delta_ns == 0,
        ;
        assert(s == (CameraRotateOverTime {
            timer: GestureTimer { elapsed_ns: (s.timer.elapsed_ns + 0) as u64, ..s.timer },
            ..s
        }));
    } else {
        let m = (n - 1) as nat;
        assert(m * delta_ns + delta_ns == n * delta_ns) by (nonlinear_arith)
            requires
                m == n - 1,
        ;
        assert(m * delta_ns >= 0) by (nonlinear_arith);
        lemma_running_progress(s, delta_ns, m);
        let sp = spec_advance_n(s, delta_ns, m);
        assert(spec_gesture_running(sp));
        assert(sp.timer.elapsed_ns + delta_ns < sp.timer.duration_ns);
        assert(spec_advance_n(s, delta_ns, n) == spec_advance(sp, delta_ns));
        assert(sp.timer.spec_tick(delta_ns) == (GestureTimer {
            elapsed_ns: (s.timer.elapsed_ns + n * delta_ns) as u64,
            ..s.timer
        }));
        assert(spec_advance(sp, delta_ns) == (CameraRotateOverTime {
            timer: GestureTimer {
                elapsed_ns: (s.timer.elapsed_ns + n * delta_ns) as u64,
                ..s.timer
            },
            ..s
        }));
        assert(spec_total_yaw_gain(s, delta_ns, n) == spec_total_yaw_gain(s, delta_ns, m)
            + spec_yaw_gain(sp, delta_ns));
        assert(spec_yaw_gain(sp, delta_ns) == s.direction * delta_ns);
        assert(s.direction * (m * delta_ns) + s.direction * delta_ns == s.direction * (n
            * delta_ns)) by (nonlinear_arith)
            requires
                m * delta_ns + delta_ns == n * delta_ns,
        ;
    }
}

/// Over one full gesture — a freshly armed state advanced frame by frame
/// with any fixed delta that divides the gesture duration evenly — the
/// cumulative yaw applied to the player is exactly one signed quarter turn
/// (`direction * CAMERA_ROTATE_DURATION_NS` yaw units), independent of the
/// frame rate; and the gesture ends re-opened, with a paused, finished
/// timer.
pub proof fn lemma_full_gesture_quarter_turn(s: CameraRotateOverTime, delta_ns: u64, n: nat)
    requires
        s.wf(),
        !s.unlocked,
        s.timer.elapsed_ns == 0,
        delta_ns > 0,
        n * delta_ns == s.timer.duration_ns,
    ensures
        spec_total_yaw_gain(s, delta_ns, n) == s.direction * CAMERA_ROTATE_DURATION_NS,
        spec_advance_n(s, delta_ns, n).unlocked,
        spec_advance_n(s, delta_ns, n).timer.paused,
        spec_advance_n(s, delta_ns, n).timer.spec_finished(),
        spec_advance_n(s, delta_ns, n).direction == s.direction,
{
    assert(n >= 1) by (nonlinear_arith)
        requires
            n * delta_ns > 0,
    ;
    let m = (n - 1) as nat;
    assert(m * delta_ns + delta_ns == n * delta_ns) by (nonlinear_arith)
        requires
            m == n - 1,
    ;
    assert(m * delta_ns >= 0) by (nonlinear_arith);
    lemma_running_progress(s, delta_ns, m);
    let sp = spec_advance_n(s, delta_ns, m);
    assert(spec_gesture_running(sp));
    assert(sp.timer.elapsed_ns + delta_ns == s.timer.duration_ns);
    assert(spec_advance(sp, delta_ns).unlocked);
    assert(s.direction * (m * delta_ns) + s.direction * delta_ns == s.direction * (n * delta_ns))
        by (nonlinear_arith)
        requires
            m * delta_ns + delta_ns == n * delta_ns,
    ;
}

} // verus!
