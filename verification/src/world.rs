//! The entity arena: a minimal model of the host engine's entity-component
//! graph. Entities are identified by their index; each carries a transform
//! and optional typed slots (player tag, camera marker, light, mesh,
//! material) plus a parent link for transform composition.

use vstd::prelude::*;

verus! {

/// One fixed-point coordinate on the movement lattice. Its real value, in
/// world units, is `(units + diag / sqrt(2)) / 10^9`. Every normalized
/// movement step changes either `units` (axis-aligned step) or `diag`
/// (diagonal step), never both, so positions stay exact.
#[derive(Clone, Copy, Debug, PartialEq, Eq, Structural)]
pub struct Coord {
    pub units: i64,
    pub diag: i64,
}

impl Coord {
    /// A coordinate with no diagonal part.
    pub fn whole(units: i64) -> (r: Coord)
        ensures
            r.units == units,
            r.diag == 0,
    {
        Coord { units, diag: 0 }
    }
}

/// An entity's transform: a fixed-point translation and a yaw angle about
/// the vertical axis. Yaw is counted in units of
/// `(quarter turn) / CAMERA_ROTATE_DURATION_NS`, so
/// `yaw == CAMERA_ROTATE_DURATION_NS` means one quarter turn.
#[derive(Clone, Copy, Debug, PartialEq, Eq, Structural)]
pub struct Transform {
    pub x: Coord,
    pub y: Coord,
    pub z: Coord,
    pub yaw: i64,
}

impl Transform {
    /// A transform at the given whole-unit position with no rotation.
    pub fn from_xyz(x: i64, y: i64, z: i64) -> (r: Transform)
        ensures
            r == (Transform { x: Coord { units: x, diag: 0 }, y: Coord { units: y, diag: 0 }, z: Coord { units: z, diag: 0 }, yaw: 0i64 }),
    {
        Transform { x: Coord::whole(x), y: Coord::whole(y), z: Coord::whole(z), yaw: 0 }
    }
}

/// A whole-unit point, used to record a camera's spawn-time look target.
#[derive(Clone, Copy, Debug, PartialEq, Eq, Structural)]
pub struct Point3 {
    pub x: i64,
    pub y: i64,
    pub z: i64,
}

/// Tag component marking the single controllable actor.
#[derive(Clone, Copy, Debug, PartialEq, Eq, Structural)]
pub struct Player;

/// Mesh shapes used by the scene, with sizes in stored (fixed-point) units.
#[derive(Clone, Copy, Debug, PartialEq, Eq, Structural)]
pub enum MeshShape {
    Sphere { radius: i64 },
    Plane { size: i64 },
    Cube { size: i64 },
}

/// The fixed colors the scene uses.
#[derive(Clone, Copy, Debug, PartialEq, Eq, Structural)]
pub enum Tint {
    AliceBlue,
    Gold,
    Olive,
}

/// A surface material with a base color.
#[derive(Clone, Copy, Debug, PartialEq, Eq, Structural)]
pub struct Material {
    pub base_color: Tint,
}

/// A point light source.
#[derive(Clone, Copy, Debug, PartialEq, Eq, Structural)]
pub struct PointLight {
    pub intensity: u64,
    pub shadows_enabled: bool,
}

/// The process-wide ambient light resource. Brightness is a fixed-point
/// multiplier in thousandths (1500 means 1.5).
#[derive(Clone, Copy, Debug, PartialEq, Eq, Structural)]
pub struct AmbientLight {
    pub color: Tint,
    pub brightness_milli: u64,
}

/// One entity with its typed component slots. `look_at` records, for a
/// camera entity, the whole-unit point it was oriented toward at spawn
/// (the renderer owns the resulting 3D orientation). `parent` indexes the
/// entity whose transform this one's is relative to.
#[derive(Clone, Copy, Debug, PartialEq, Eq, Structural)]
pub struct Entity {
    pub transform: Transform,
    pub player: Option<Player>,
    pub camera: bool,
    pub light: Option<PointLight>,
    pub mesh: Option<MeshShape>,
    pub material: Option<Material>,
    pub look_at: Option<Point3>,
    pub parent: Option<usize>,
}

impl Entity {
    /// A bare entity at the given transform, with every slot empty.
    pub fn at(transform: Transform) -> (r: Entity)
        ensures
            r == (Entity {
                transform,
                player: None,
                camera: false,
                light: None,
                mesh: None,
                material: None,
                look_at: None,
                parent: None,
            }),
    {
        Entity {
            transform,
            player: None,
            camera: false,
            light: None,
            mesh: None,
            material: None,
            look_at: None,
            parent: None,
        }
    }
}

/// Why a single-entity lookup failed: the queried tag matched no entity,
/// or more than one.
#[derive(Clone, Copy, Debug, PartialEq, Eq, Structural)]
pub enum SingleError {
    NoEntities,
    MultipleEntities,
}

/// The entity tagged as the player.
pub open spec fn is_player(e: Entity) -> bool {
    e.player is Some
}

/// The scene graph plus the ambient-light resource.
pub struct World {
    pub entities: Vec<Entity>,
    pub ambient: Option<AmbientLight>,
}

impl World {
    /// `i` indexes the one player entity in the world.
    pub open spec fn spec_is_unique_player(self, i: int) -> bool {
        &&& 0 <= i < self.entities@.len()
        &&& is_player(self.entities@[i])
        &&& forall|j: int|
            0 <= j < self.entities@.len() && is_player(#[trigger] self.entities@[j]) ==> j == i
    }

    /// No entity is tagged as the player.
    pub open spec fn spec_no_player(self) -> bool {
        forall|j: int| 0 <= j < self.entities@.len() ==> !is_player(#[trigger] self.entities@[j])
    }

    /// At least two distinct entities are tagged as the player.
    pub open spec fn spec_many_players(self) -> bool {
        exists|i: int, j: int|
            0 <= i < j < self.entities@.len() && is_player(#[trigger] self.entities@[i])
                && is_player(#[trigger] self.entities@[j])
    }

    /// An empty world.
    pub fn new() -> (r: World)
        ensures
            r.entities@.len() == 0,
            r.ambient is None,
    {
        World { entities: Vec::new(), ambient: None }
    }

    /// Add an entity; its id is its index.
    pub fn spawn(&mut self, e: Entity) -> (id: usize)
        ensures
            final(self).entities@ == old(self).entities@.push(e),
            final(self).ambient == old(self).ambient,
            id == old(self).entities@.len(),
    {
        let id = self.entities.len();
        self.entities.push(e);
        id
    }

    /// Make `child`'s transform relative to `parent`'s.
    pub fn set_parent(&mut self, child: usize, parent: usize)
        requires
            child < old(self).entities@.len(),
            parent < old(self).entities@.len(),
        ensures
            final(self).entities@ == old(self).entities@.update(
                child as int,
                (Entity { parent: Some(parent), ..old(self).entities@[child as int] }),
            ),
            final(self).ambient == old(self).ambient,
    {
        let ent = &mut self.entities[child];
        ent.parent = Some(parent);
    }

    /// Find the unique entity tagged as the player. Returns its index when
    /// exactly one exists, and says otherwise whether none or several do —
    /// a cardinality violation the caller must treat as fatal.
    pub fn single_player(&self) -> (r: Result<usize, SingleError>)
        ensures
            match r {
                Ok(i) => self.spec_is_unique_player(i as int),
                Err(SingleError::NoEntities) => self.spec_no_player(),
                Err(SingleError::MultipleEntities) => self.spec_many_players(),
            },
            (r is Ok) <==> exists|i: int| self.spec_is_unique_player(i),
    {
        let mut found: Option<usize> = None;
        let n = self.entities.len();
        let mut k: usize = 0;
        while k < n
            invariant
                n == self.entities@.len(),
                k <= n,
                match found {
                    Some(i) => {
                        &&& i < k
                        &&& is_player(self.entities@[i as int])
                        &&& forall|j: int|
                            0 <= j < k && is_player(#[trigger] self.entities@[j]) ==> j == i
                    },
                    None => forall|j: int|
                        0 <= j < k ==> !is_player(#[trigger] self.entities@[j]),
                },
            decreases n - k,
        {
            if self.entities[k].player.is_some() {
                match found {
                    Some(i) => {
                        assert(self.spec_many_players());
                        return Err(SingleError::MultipleEntities);
                    },
                    None => {
                        found = Some(k);
                    },
                }
            }
            k = k + 1;
        }
        match found {
            Some(i) => Ok(i),
            None => Err(SingleError::NoEntities),
        }
    }
}

} // verus!
