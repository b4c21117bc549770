//! One-time scene construction: light, ambient light, camera, player
//! sphere, ground plane and a decorative cube, with the camera parented to
//! the player so that player translation and rotation carry it along.

use vstd::prelude::*;

use crate::world::{
    AmbientLight, Coord, Entity, Material, MeshShape, Player, Point3, PointLight, Tint, Transform,
    World,
};

verus! {

/// Index of the point-light entity after setup.
pub const LIGHT_INDEX: usize = 0;

/// Index of the camera entity after setup.
pub const CAMERA_INDEX: usize = 1;

/// Index of the player entity after setup.
pub const PLAYER_INDEX: usize = 2;

/// Index of the ground-plane entity after setup.
pub const GROUND_INDEX: usize = 3;

/// Index of the decorative cube entity after setup.
pub const CUBE_INDEX: usize = 4;

/// A transform at the given whole-unit position with no rotation.
pub open spec fn placed(x: i64, y: i64, z: i64) -> Transform {
    Transform {
        x: Coord { units: x, diag: 0 },
        y: Coord { units: y, diag: 0 },
        z: Coord { units: z, diag: 0 },
        yaw: 0,
    }
}

/// An entity at the given transform with every slot empty.
pub open spec fn bare(t: Transform) -> Entity {
    Entity {
        transform: t,
        player: None,
        camera: false,
        light: None,
        mesh: None,
        material: None,
        look_at: None,
        parent: None,
    }
}

/// The shadow-casting point light at a fixed off-center elevated position.
pub open spec fn light_entity() -> Entity {
    Entity {
        light: Some(PointLight { intensity: 5000, shadows_enabled: true }),
        ..bare(placed(-4_000_000_000i64, 8_000_000_000, -4_000_000_000i64))
    }
}

/// The camera at a fixed elevated oblique position, oriented toward the
/// world origin and parented to the player.
pub open spec fn camera_entity() -> Entity {
    Entity {
        camera: true,
        look_at: Some(Point3 { x: 0, y: 0, z: 0 }),
        parent: Some(PLAYER_INDEX),
        ..bare(placed(-15_000_000_000i64, 15_000_000_000, -15_000_000_000i64))
    }
}

/// The player: a unit sphere with a gold material, half a unit above the
/// ground plane.
pub open spec fn player_entity() -> Entity {
    Entity {
        player: Some(Player),
        mesh: Some(MeshShape::Sphere { radius: 1_000_000_000 }),
        material: Some(Material { base_color: Tint::Gold }),
        ..bare(placed(0, 500_000_000, 0))
    }
}

/// The static ground plane with the default material.
pub open spec fn ground_entity() -> Entity {
    Entity { mesh: Some(MeshShape::Plane { size: 5_000_000_000 }), ..bare(placed(0, 0, 0)) }
}

/// The static decorative cube with an olive material at a fixed offset.
pub open spec fn cube_entity() -> Entity {
    Entity {
        mesh: Some(MeshShape::Cube { size: 500_000_000 }),
        material: Some(Material { base_color: Tint::Olive }),
        ..bare(placed(1_000_000_000, 1_000_000_000, 1_000_000_000))
    }
}

/// The ambient light installed as the process-wide resource.
pub open spec fn ambient_light() -> AmbientLight {
    AmbientLight { color: Tint::AliceBlue, brightness_milli: 1500 }
}

/// Populate the empty world with the static scene: the point light, the
/// ambient-light resource, the camera, the player, the ground plane and
/// the cube, and parent the camera to the player. Afterwards exactly one
/// player entity exists, at `PLAYER_INDEX`.
pub fn scene_setup(world: &mut World)
    requires
        old(world).entities@.len() == 0,
    ensures
        final(world).entities@.len() == 5,
        final(world).entities@[LIGHT_INDEX as int] == light_entity(),
        final(world).entities@[CAMERA_INDEX as int] == camera_entity(),
        final(world).entities@[PLAYER_INDEX as int] == player_entity(),
        final(world).entities@[GROUND_INDEX as int] == ground_entity(),
        final(world).entities@[CUBE_INDEX as int] == cube_entity(),
        final(world).ambient == Some(ambient_light()),
        final(world).spec_is_unique_player(PLAYER_INDEX as int),
{
    let mut light = Entity::at(Transform::from_xyz(-4_000_000_000, 8_000_000_000, -4_000_000_000));
    light.light = Some(PointLight { intensity: 5000, shadows_enabled: true });
    world.spawn(light);

    world.ambient = Some(AmbientLight { color: Tint::AliceBlue, brightness_milli: 1500 });

    let mut camera = Entity::at(
        Transform::from_xyz(-15_000_000_000, 15_000_000_000, -15_000_000_000),
    );
    camera.camera = true;
    camera.look_at = Some(Point3 { x: 0, y: 0, z: 0 });
    let camera_id = world.spawn(camera);

    let mut player = Entity::at(Transform::from_xyz(0, 500_000_000, 0));
    player.player = Some(Player);
    player.mesh = Some(MeshShape::Sphere { radius: 1_000_000_000 });
    player.material = Some(Material { base_color: Tint::Gold });
    let player_id = world.spawn(player);

    let mut ground = Entity::at(Transform::from_xyz(0, 0, 0));
    ground.mesh = Some(MeshShape::Plane { size: 5_000_000_000 });
    world.spawn(ground);

    world.set_parent(camera_id, player_id);

    let mut cube = Entity::at(Transform::from_xyz(1_000_000_000, 1_000_000_000, 1_000_000_000));
    cube.mesh = Some(MeshShape::Cube { size: 500_000_000 });
    cube.material = Some(Material { base_color: Tint::Olive });
    world.spawn(cube);
}

} // verus!
