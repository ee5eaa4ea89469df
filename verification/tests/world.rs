//! Runs the library against a real ncollide3d collision world, the way the
//! host loop does: sync the pose, step the world, respond to events,
//! integrate.

use bounce::motion::integrate;
use bounce::response::{contact_response, ContactEvent, ContactOutcome};
use bounce::scene::{
    ball_collider, pose_from_translation, setup_bookkeeping, wall_colliders, CollisionObjectData,
    GroupFilter, ShapeKind,
};
use bounce::vec3::Vector3;

use ncollide3d::na::{Isometry3, Point3, Unit, Vector3 as NaVector3};
use ncollide3d::narrow_phase::ContactEvent as NcContactEvent;
use ncollide3d::pipeline::object::{CollisionGroups, GeometricQueryType};
use ncollide3d::shape::{Ball, Plane, ShapeHandle, Triangle};
use ncollide3d::world::CollisionWorld;

fn to_f64(ticks: i64) -> f64 {
    ticks as f64 / 1000.0
}

fn to_ticks(value: f64) -> i64 {
    (value * 1000.0).round() as i64
}

fn na_vector(v: Vector3) -> NaVector3<f64> {
    NaVector3::new(to_f64(v.x), to_f64(v.y), to_f64(v.z))
}

fn na_point(v: Vector3) -> Point3<f64> {
    Point3::new(to_f64(v.x), to_f64(v.y), to_f64(v.z))
}

fn iso(translation: Vector3) -> Isometry3<f64> {
    Isometry3::new(na_vector(translation), ncollide3d::na::zero())
}

fn shape_handle(shape: &ShapeKind) -> ShapeHandle<f64> {
    match *shape {
        ShapeKind::Sphere { radius } => ShapeHandle::new(Ball::new(to_f64(radius))),
        ShapeKind::Plane { normal } => {
            ShapeHandle::new(Plane::new(Unit::new_normalize(na_vector(normal))))
        }
        ShapeKind::Triangle { a, b, c } => {
            ShapeHandle::new(Triangle::new(na_point(a), na_point(b), na_point(c)))
        }
    }
}

fn collision_groups(filter: &GroupFilter) -> CollisionGroups {
    let mut membership: Vec<usize> = Vec::new();
    let mut whitelist: Vec<usize> = Vec::new();
    for i in 0..30usize {
        if filter.membership & (1u32 << i) != 0 {
            membership.push(i);
        }
        if filter.whitelist & (1u32 << i) != 0 {
            whitelist.push(i);
        }
    }
    let mut groups = CollisionGroups::new();
    groups.set_membership(&membership);
    groups.set_whitelist(&whitelist);
    groups
}

#[test]
fn real_collision_world_reflects_the_ball_off_the_left_wall() {
    let mut world = CollisionWorld::<f64, CollisionObjectData>::new(0.01);
    for wall in wall_colliders() {
        world.add(
            iso(wall.pose.translation),
            shape_handle(&wall.shape),
            collision_groups(&wall.groups),
            GeometricQueryType::Contacts(to_f64(wall.prediction), 0.0),
            CollisionObjectData::new("ground"),
        );
    }
    let ball = ball_collider();
    let (ball_handle, _) = world.add(
        iso(ball.pose.translation),
        shape_handle(&ball.shape),
        collision_groups(&ball.groups),
        GeometricQueryType::Contacts(to_f64(ball.prediction), 0.0),
        CollisionObjectData::new("ball"),
    );
    let ball_entity: u64 = 1;
    let map = setup_bookkeeping(ball_handle.0 as u64, ball_entity);

    let mut position = Vector3::new(0, -1500, 1500);
    let mut velocity = Vector3::new(-2000, 1000, -500);
    let dt: i64 = 16;
    let mut first_reflection: Option<(Vector3, Vector3)> = None;

    let mut frame: u32 = 0;
    while frame < 400 && first_reflection.is_none() {
        let pose = pose_from_translation(position);
        world.set_position(ball_handle, iso(pose.translation));
        world.update();

        for event in world.contact_events() {
            let lib_event = match *event {
                NcContactEvent::Started(a, b) => ContactEvent::Started(a.0 as u64, b.0 as u64),
                NcContactEvent::Stopped(a, b) => ContactEvent::Stopped(a.0 as u64, b.0 as u64),
            };
            let normal = match *event {
                NcContactEvent::Started(a, b) => world
                    .contact_pair(a, b, true)
                    .and_then(|pair| pair.3.deepest_contact())
                    .map(|deepest| {
                        let n = deepest.contact.normal;
                        Vector3::new(to_ticks(n.x), to_ticks(n.y), to_ticks(n.z))
                    }),
                NcContactEvent::Stopped(_, _) => None,
            };
            if first_reflection.is_none() {
                if let ContactOutcome::Reflected { entity, velocity: reflected } =
                    contact_response(&map, &lib_event, normal, velocity)
                {
                    assert_eq!(entity, ball_entity);
                    first_reflection = Some((position, reflected));
                }
            }
        }

        position = integrate(position, velocity, dt);
        frame += 1;
    }

    let (contact_position, reflected) = first_reflection.expect("the ball never hit the wall");
    // The contact happened at the left wall, which stands five units out.
    assert!(contact_position.x <= -4400, "contact at {:?}", contact_position);
    // The reflection flips the x component and keeps the other two: the
    // wall's normal is the x axis.
    assert_eq!(reflected, Vector3::new(2000, 1000, -500));
}
