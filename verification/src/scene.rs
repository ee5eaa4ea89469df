//! Scene bookkeeping: the room's colliders, their collision filters, the
//! pose sync rule, and the handle records made once at setup.

use vstd::prelude::*;

use crate::fixed::UNIT;
use crate::registry::EntityColliderMap;
use crate::vec3::Vector3;
use crate::vec3::zero_spec;

verus! {

/// Mask with every collision group selected.
pub const ALL_GROUPS: u32 = 0x3FFF_FFFF;

/// Mask of the ball's group (bit one of the filter bitset).
pub const BALL_GROUP_MASK: u32 = 2;

/// Mask of the walls' group (bit two of the filter bitset).
pub const WALL_GROUP_MASK: u32 = 4;

/// Bitset-based interaction filter: a pair of colliders is tested for
/// contact only when each one's membership meets the other's whitelist.
#[derive(Clone, Copy, PartialEq, Eq, Structural, Debug)]
pub struct GroupFilter {
    pub membership: u32,
    pub whitelist: u32,
}

/// Whether the filters let `a` and `b` be tested against each other.
pub open spec fn interacts(a: GroupFilter, b: GroupFilter) -> bool {
    a.membership & b.whitelist != 0 && b.membership & a.whitelist != 0
}

/// Whether the filters let `a` and `b` be tested against each other.
pub fn can_interact(a: &GroupFilter, b: &GroupFilter) -> (r: bool)
    ensures
        r == interacts(*a, *b),
{
    a.membership & b.whitelist != 0 && b.membership & a.whitelist != 0
}

/// The ball's filter: member of the ball group, interacts with everything.
pub open spec fn ball_groups_spec() -> GroupFilter {
    GroupFilter { membership: BALL_GROUP_MASK, whitelist: ALL_GROUPS }
}

/// The ball's filter: member of the ball group, interacts with everything.
pub fn ball_groups() -> (g: GroupFilter)
    ensures
        g == ball_groups_spec(),
{
    GroupFilter { membership: BALL_GROUP_MASK, whitelist: ALL_GROUPS }
}

/// The walls' filter: member of the wall group, tested only against the
/// ball's group.
pub open spec fn wall_groups_spec() -> GroupFilter {
    GroupFilter { membership: WALL_GROUP_MASK, whitelist: BALL_GROUP_MASK }
}

/// The walls' filter: member of the wall group, tested only against the
/// ball's group.
pub fn wall_groups() -> (g: GroupFilter)
    ensures
        g == wall_groups_spec(),
{
    GroupFilter { membership: WALL_GROUP_MASK, whitelist: BALL_GROUP_MASK }
}

/// The room's filters let the ball meet every wall, while no two walls are
/// ever tested against each other.
pub proof fn lemma_room_filters()
    ensures
        interacts(ball_groups_spec(), wall_groups_spec()),
        !interacts(wall_groups_spec(), wall_groups_spec()),
{
    assert(2u32 & 2u32 != 0u32) by (bit_vector);
    assert(4u32 & 0x3FFF_FFFFu32 != 0u32) by (bit_vector);
    assert(4u32 & 2u32 == 0u32) by (bit_vector);
}

/// A rigid pose: a translation and a rotation given as a scaled axis-angle
/// vector, the zero vector being the identity rotation.
#[derive(Clone, Copy, PartialEq, Eq, Structural, Debug)]
pub struct Pose {
    pub translation: Vector3,
    pub rotation: Vector3,
}

/// The pose the per-frame sync writes into the collision world: the
/// entity's current position, with zero rotation.
pub open spec fn synced_pose(position: Vector3) -> Pose {
    Pose { translation: position, rotation: zero_spec() }
}

/// Builds the collision-object pose for an entity at `position`: that
/// translation, zero rotation.
pub fn pose_from_translation(position: Vector3) -> (p: Pose)
    ensures
        p == synced_pose(position),
{
    Pose { translation: position, rotation: Vector3 { x: 0, y: 0, z: 0 } }
}

/// A collider shape, in ticks.
#[derive(Clone, Copy, PartialEq, Eq, Structural, Debug)]
pub enum ShapeKind {
    Sphere { radius: i64 },
    Plane { normal: Vector3 },
    Triangle { a: Vector3, b: Vector3, c: Vector3 },
}

/// One collider to register with the collision world: its shape, pose and
/// filter, the contact prediction margin in ticks (zero: only actual
/// overlaps are reported), and whether the collider moves.
#[derive(Clone, Copy, PartialEq, Eq, Structural, Debug)]
pub struct ColliderDesc {
    pub shape: ShapeKind,
    pub pose: Pose,
    pub groups: GroupFilter,
    pub prediction: i64,
    pub dynamic: bool,
}

/// The room: a five-unit half-width box. The left side is two triangles
/// in the plane five units left of the origin; the other five sides are
/// planes whose normals point into the room.
pub open spec fn wall_colliders_spec() -> Seq<ColliderDesc> {
    seq![
        left_wall_a_spec(),
        right_wall_spec(),
        bottom_wall_spec(),
        top_wall_spec(),
        front_wall_spec(),
        back_wall_spec(),
        left_wall_b_spec(),
    ]
}

/// A static wall with the walls' filter and zero prediction margin.
pub open spec fn wall_desc(shape: ShapeKind, translation: Vector3) -> ColliderDesc {
    ColliderDesc {
        shape,
        pose: Pose { translation, rotation: zero_spec() },
        groups: wall_groups_spec(),
        prediction: 0,
        dynamic: false,
    }
}

/// First triangle of the left side, in the plane five units to the left.
pub open spec fn left_wall_a_spec() -> ColliderDesc {
    wall_desc(
        ShapeKind::Triangle {
            a: Vector3 { x: -5000i64, y: -5000i64, z: -5000i64 },
            b: Vector3 { x: -5000i64, y: -5000i64, z: 5000 },
            c: Vector3 { x: -5000i64, y: 5000, z: 5000 },
        },
        zero_spec(),
    )
}

/// Second triangle of the left side.
pub open spec fn left_wall_b_spec() -> ColliderDesc {
    wall_desc(
        ShapeKind::Triangle {
            a: Vector3 { x: -5000i64, y: -5000i64, z: -5000i64 },
            b: Vector3 { x: -5000i64, y: 5000, z: 5000 },
            c: Vector3 { x: -5000i64, y: 5000, z: -5000i64 },
        },
        zero_spec(),
    )
}

/// The right side: a plane five units right, facing left.
pub open spec fn right_wall_spec() -> ColliderDesc {
    wall_desc(
        ShapeKind::Plane { normal: Vector3 { x: (-UNIT) as i64, y: 0, z: 0 } },
        Vector3 { x: 5000, y: 0, z: 0 },
    )
}

/// The bottom: a plane five units down, facing up.
pub open spec fn bottom_wall_spec() -> ColliderDesc {
    wall_desc(
        ShapeKind::Plane { normal: Vector3 { x: 0, y: UNIT, z: 0 } },
        Vector3 { x: 0, y: -5000i64, z: 0 },
    )
}

/// The top: a plane five units up, facing down.
pub open spec fn top_wall_spec() -> ColliderDesc {
    wall_desc(
        ShapeKind::Plane { normal: Vector3 { x: 0, y: (-UNIT) as i64, z: 0 } },
        Vector3 { x: 0, y: 5000, z: 0 },
    )
}

/// The front: a plane five units forward, facing back.
pub open spec fn front_wall_spec() -> ColliderDesc {
    wall_desc(
        ShapeKind::Plane { normal: Vector3 { x: 0, y: 0, z: (-UNIT) as i64 } },
        Vector3 { x: 0, y: 0, z: 5000 },
    )
}

/// The back: a plane five units back, facing forward.
pub open spec fn back_wall_spec() -> ColliderDesc {
    wall_desc(
        ShapeKind::Plane { normal: Vector3 { x: 0, y: 0, z: UNIT } },
        Vector3 { x: 0, y: 0, z: -5000i64 },
    )
}

/// The ball: a half-unit sphere one unit along each axis, dynamic, with
/// the ball's filter and zero prediction margin.
pub open spec fn ball_collider_spec() -> ColliderDesc {
    ColliderDesc {
        shape: ShapeKind::Sphere { radius: 500 },
        pose: Pose { translation: Vector3 { x: 1000, y: 1000, z: 1000 }, rotation: zero_spec() },
        groups: ball_groups_spec(),
        prediction: 0,
        dynamic: true,
    }
}

/// The seven static colliders that close the room.
pub fn wall_colliders() -> (w: Vec<ColliderDesc>)
    ensures
        w@ == wall_colliders_spec(),
{
    let groups = wall_groups();
    let mut w: Vec<ColliderDesc> = Vec::new();
    w.push(ColliderDesc {
        shape: ShapeKind::Triangle {
            a: Vector3 { x: -5000i64, y: -5000i64, z: -5000i64 },
            b: Vector3 { x: -5000i64, y: -5000i64, z: 5000 },
            c: Vector3 { x: -5000i64, y: 5000, z: 5000 },
        },
        pose: pose_from_translation(Vector3::zero()),
        groups,
        prediction: 0,
        dynamic: false,
    });
    w.push(ColliderDesc {
        shape: ShapeKind::Plane { normal: Vector3 { x: (-UNIT) as i64, y: 0, z: 0 } },
        pose: pose_from_translation(Vector3 { x: 5000, y: 0, z: 0 }),
        groups,
        prediction: 0,
        dynamic: false,
    });
    w.push(ColliderDesc {
        shape: ShapeKind::Plane { normal: Vector3 { x: 0, y: UNIT, z: 0 } },
        pose: pose_from_translation(Vector3 { x: 0, y: -5000i64, z: 0 }),
        groups,
        prediction: 0,
        dynamic: false,
    });
    w.push(ColliderDesc {
        shape: ShapeKind::Plane { normal: Vector3 { x: 0, y: (-UNIT) as i64, z: 0 } },
        pose: pose_from_translation(Vector3 { x: 0, y: 5000, z: 0 }),
        groups,
        prediction: 0,
        dynamic: false,
    });
    w.push(ColliderDesc {
        shape: ShapeKind::Plane { normal: Vector3 { x: 0, y: 0, z: (-UNIT) as i64 } },
        pose: pose_from_translation(Vector3 { x: 0, y: 0, z: 5000 }),
        groups,
        prediction: 0,
        dynamic: false,
    });
    w.push(ColliderDesc {
        shape: ShapeKind::Plane { normal: Vector3 { x: 0, y: 0, z: UNIT } },
        pose: pose_from_translation(Vector3 { x: 0, y: 0, z: -5000i64 }),
        groups,
        prediction: 0,
        dynamic: false,
    });
    w.push(ColliderDesc {
        shape: ShapeKind::Triangle {
            a: Vector3 { x: -5000i64, y: -5000i64, z: -5000i64 },
            b: Vector3 { x: -5000i64, y: 5000, z: 5000 },
            c: Vector3 { x: -5000i64, y: 5000, z: -5000i64 },
        },
        pose: pose_from_translation(Vector3::zero()),
        groups,
        prediction: 0,
        dynamic: false,
    });
    proof {
        assert(w@ =~= wall_colliders_spec());
    }
    w
}

/// The ball's collider description.
pub fn ball_collider() -> (c: ColliderDesc)
    ensures
        c == ball_collider_spec(),
{
    ColliderDesc {
        shape: ShapeKind::Sphere { radius: 500 },
        pose: pose_from_translation(Vector3 { x: 1000, y: 1000, z: 1000 }),
        groups: ball_groups(),
        prediction: 0,
        dynamic: true,
    }
}

/// The record made at setup: the ball's handle resolves to the ball's
/// entity and to nothing else; every other handle — every static wall —
/// resolves to no entity.
pub fn setup_bookkeeping(ball_handle: u64, ball_entity: u64) -> (m: EntityColliderMap)
    ensures
        m@ == Map::<u64, u64>::empty().insert(ball_handle, ball_entity),
        m@.contains_key(ball_handle) && m@[ball_handle] == ball_entity,
        forall|h: u64| h != ball_handle ==> !m@.contains_key(h),
{
    let mut m = EntityColliderMap::new();
    m.insert(ball_handle, ball_entity);
    m
}

/// Free-form tag carried by each collision object as user data.
#[derive(Clone)]
pub struct CollisionObjectData {
    pub name: &'static str,
}

impl CollisionObjectData {
    /// A tag with the given name.
    pub fn new(name: &'static str) -> (r: CollisionObjectData)
        ensures
            r.name@ == name@,
    {
        CollisionObjectData { name }
    }
}

} // verus!
