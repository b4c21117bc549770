//! Planar movement direction from the four movement keys.
//!
//! Each held key contributes a diagonal-biased basis vector on the ground
//! plane (x, z): A adds (1, -1), D adds (-1, 1), W adds (1, 1), S adds
//! (-1, -1). Opposite keys cancel; adjacent keys combine into an axis
//! direction. The nonzero sums point along one of eight compass directions,
//! and the normalized step has unit magnitude.

use vstd::prelude::*;

use crate::input::KeyboardState;

verus! {

/// Accumulated planar direction on the ground plane. The vertical component
/// is always zero and is not stored.
#[derive(Clone, Copy, Debug, PartialEq, Eq, Structural)]
pub struct DirVec {
    pub x: i64,
    pub z: i64,
}

/// x component of the accumulated direction for one frame's held keys.
pub open spec fn dir_x(a: bool, d: bool, w: bool, s: bool) -> int {
    (if a { 1int } else { 0int }) + (if d { -1int } else { 0int })
        + (if w { 1int } else { 0int }) + (if s { -1int } else { 0int })
}

/// z component of the accumulated direction for one frame's held keys.
pub open spec fn dir_z(a: bool, d: bool, w: bool, s: bool) -> int {
    (if a { -1int } else { 0int }) + (if d { 1int } else { 0int })
        + (if w { 1int } else { 0int }) + (if s { -1int } else { 0int })
}

/// Sign of an integer: -1, 0 or 1.
pub open spec fn sign(v: int) -> int {
    if v > 0 {
        1
    } else if v < 0 {
        -1
    } else {
        0
    }
}

/// The accumulated vector is zero.
pub open spec fn is_zero_dir(x: int, z: int) -> bool {
    x == 0 && z == 0
}

/// The vector points along one of the eight compass directions of the
/// rotated basis: the four pure diagonals (both components nonzero and of
/// equal magnitude) or the four axis directions (one component zero).
pub open spec fn is_compass(x: int, z: int) -> bool {
    ||| (x != 0 && z == 0)
    ||| (x == 0 && z != 0)
    ||| (x != 0 && z != 0 && (x == z || x == -z))
}

/// Whole-unit x component of the normalized step direction. Nonzero only
/// for an axis-aligned direction.
pub open spec fn unit_whole_x(v: DirVec) -> int {
    if v.z == 0 {
        sign(v.x as int)
    } else {
        0
    }
}

/// Whole-unit z component of the normalized step direction.
pub open spec fn unit_whole_z(v: DirVec) -> int {
    if v.x == 0 {
        sign(v.z as int)
    } else {
        0
    }
}

/// `1/sqrt(2)`-unit x component of the normalized step direction. Nonzero
/// only for a diagonal direction.
pub open spec fn unit_diag_x(v: DirVec) -> int {
    if v.x != 0 && v.z != 0 {
        sign(v.x as int)
    } else {
        0
    }
}

/// `1/sqrt(2)`-unit z component of the normalized step direction.
pub open spec fn unit_diag_z(v: DirVec) -> int {
    if v.x != 0 && v.z != 0 {
        sign(v.z as int)
    } else {
        0
    }
}

/// Twice the squared Euclidean length of a planar vector whose coordinates
/// are `w + g / sqrt(2)` with, per axis, one of `w`, `g` zero (as every
/// normalized step here is): `2 * |v|^2 = 2*wx^2 + 2*wz^2 + gx^2 + gz^2`.
/// Doubling keeps the value integral.
pub open spec fn twice_sq_len(wx: int, wz: int, gx: int, gz: int) -> int {
    2 * wx * wx + 2 * wz * wz + gx * gx + gz * gz
}

/// Accumulate the planar direction vector from the held movement keys.
pub fn movement_direction(keys: &KeyboardState) -> (v: DirVec)
    ensures
        v.x as int == dir_x(
            keys.a.spec_pressed(),
            keys.d.spec_pressed(),
            keys.w.spec_pressed(),
            keys.s.spec_pressed(),
        ),
        v.z as int == dir_z(
            keys.a.spec_pressed(),
            keys.d.spec_pressed(),
            keys.w.spec_pressed(),
            keys.s.spec_pressed(),
        ),
{
    let mut x: i64 = 0;
    let mut z: i64 = 0;
    if keys.a.pressed() {
        x = x + 1;
        z = z - 1;
    }
    if keys.d.pressed() {
        x = x - 1;
        z = z + 1;
    }
    if keys.w.pressed() {
        x = x + 1;
        z = z + 1;
    }
    if keys.s.pressed() {
        x = x - 1;
        z = z - 1;
    }
    DirVec { x, z }
}

/// For every combination of the four movement keys, the accumulated
/// direction is either zero or points along one of the eight compass
/// directions of the rotated basis, and in the latter case its normalized
/// step has unit magnitude (twice its squared length is 2).
pub proof fn lemma_direction_compass(a: bool, d: bool, w: bool, s: bool)
    ensures
        is_zero_dir(dir_x(a, d, w, s), dir_z(a, d, w, s)) || is_compass(
            dir_x(a, d, w, s),
            dir_z(a, d, w, s),
        ),
        !is_zero_dir(dir_x(a, d, w, s), dir_z(a, d, w, s)) ==> twice_sq_len(
            unit_whole_x(DirVec { x: dir_x(a, d, w, s) as i64, z: dir_z(a, d, w, s) as i64 }),
            unit_whole_z(DirVec { x: dir_x(a, d, w, s) as i64, z: dir_z(a, d, w, s) as i64 }),
            unit_diag_x(DirVec { x: dir_x(a, d, w, s) as i64, z: dir_z(a, d, w, s) as i64 }),
            unit_diag_z(DirVec { x: dir_x(a, d, w, s) as i64, z: dir_z(a, d, w, s) as i64 }),
        ) == 2,
{
}

/// Holding opposite keys together (A with D, or W with S) contributes
/// nothing: whenever the opposite keys agree pairwise, the accumulated
/// direction is zero.
pub proof fn lemma_opposite_keys_cancel(a: bool, d: bool, w: bool, s: bool)
    requires
        a == d,
        w == s,
    ensures
        is_zero_dir(dir_x(a, d, w, s), dir_z(a, d, w, s)),
{
}

} // verus!
