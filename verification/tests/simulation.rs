use bounce::motion::integrate;
use bounce::registry::EntityColliderMap;
use bounce::response::ContactEvent;
use bounce::response::ContactOutcome;
use bounce::response::contact_response;
use bounce::response::contact_target;
use bounce::response::respond_all;
use bounce::scene::setup_bookkeeping;
use bounce::vec3::Vector3;

#[test]
fn contact_start_with_wall_reflects_ball_velocity() {
    let map = setup_bookkeeping(10, 7);
    let event = ContactEvent::Started(3, 10);
    let normal = Some(Vector3::new(0, 1000, 0));
    let vel = Vector3::new(1000, -2000, 500);
    let outcome = contact_response(&map, &event, normal, vel);
    assert_eq!(
        outcome,
        ContactOutcome::Reflected { entity: 7, velocity: Vector3::new(1000, 2000, 500) }
    );
}

#[test]
fn contact_stop_is_ignored() {
    let map = setup_bookkeeping(10, 7);
    let event = ContactEvent::Stopped(3, 10);
    let normal = Some(Vector3::new(0, 1000, 0));
    let vel = Vector3::new(1000, -2000, 500);
    assert_eq!(contact_response(&map, &event, normal, vel), ContactOutcome::NoTrackedEntity);
}

#[test]
fn contact_between_untracked_colliders_is_ignored() {
    // a wall-on-wall event resolves to no entity on either side
    let map = setup_bookkeeping(10, 7);
    let event = ContactEvent::Started(3, 4);
    assert_eq!(contact_target(&map, &event), None);
    let vel = Vector3::new(1000, -2000, 500);
    assert_eq!(contact_response(&map, &event, None, vel), ContactOutcome::NoTrackedEntity);
}

#[test]
fn missing_manifold_skips_the_event() {
    let map = setup_bookkeeping(10, 7);
    let event = ContactEvent::Started(3, 10);
    let vel = Vector3::new(1000, -2000, 500);
    assert_eq!(contact_response(&map, &event, None, vel), ContactOutcome::MissingManifold {
        entity: 7,
    });
}

#[test]
fn when_both_sides_are_tracked_the_second_collider_wins() {
    let mut map = EntityColliderMap::new();
    map.insert(1, 100);
    map.insert(2, 200);
    assert_eq!(contact_target(&map, &ContactEvent::Started(1, 2)), Some(200));
    assert_eq!(contact_target(&map, &ContactEvent::Started(2, 1)), Some(100));
}

#[test]
fn a_frame_of_events_is_answered_in_polling_order() {
    let map = setup_bookkeeping(10, 7);
    let vel = Vector3::new(1000, -2000, 500);
    let events = vec![
        // a contact end: ignored
        (ContactEvent::Stopped(3, 10), Some(Vector3::new(1000, 0, 0))),
        // a start against the left wall: flips x
        (ContactEvent::Started(3, 10), Some(Vector3::new(1000, 0, 0))),
        // a start whose pair has no manifold: skipped
        (ContactEvent::Started(4, 10), None),
        // a start against the floor: flips y of what the second event left
        (ContactEvent::Started(5, 10), Some(Vector3::new(0, 1000, 0))),
    ];
    let after = respond_all(&map, &events, vel);
    assert_eq!(after, Vector3::new(-1000, 2000, 500));
}

#[test]
fn ball_bounces_off_the_left_wall() {
    // the ball starts at (0, -1.5, 1.5) moving (-2, 1, -0.5); once it
    // reaches the left wall at x = -5 the x velocity flips sign and the
    // other components are unchanged, and integration goes on with the
    // new velocity.
    let ball_handle: u64 = 100;
    let wall_handle: u64 = 1;
    let ball_entity: u64 = 7;
    let map = setup_bookkeeping(ball_handle, ball_entity);
    let radius: i64 = 500;
    let dt: i64 = 100;
    let mut pos = Vector3::new(0, -1500, 1500);
    let mut vel = Vector3::new(-2000, 1000, -500);
    let mut bounced = false;
    let mut frames: u32 = 0;
    while !bounced && frames < 1000 {
        pos = integrate(pos, vel, dt);
        frames += 1;
        // the collision world reports a started contact once the ball
        // overlaps the plane at x = -5; its normal points into the room
        if pos.x - radius <= -5000 {
            let event = ContactEvent::Started(wall_handle, ball_handle);
            let normal = Some(Vector3::new(1000, 0, 0));
            match contact_response(&map, &event, normal, vel) {
                ContactOutcome::Reflected { entity, velocity } => {
                    assert_eq!(entity, ball_entity);
                    vel = velocity;
                    bounced = true;
                }
                other => panic!("expected a reflection, got {:?}", other),
            }
        }
    }
    assert!(bounced);
    assert_eq!(vel, Vector3::new(2000, 1000, -500));
    // the next frame moves away from the wall using the new velocity
    let before = pos;
    pos = integrate(pos, vel, dt);
    assert_eq!(pos, Vector3::new(before.x + 200, before.y + 100, before.z - 50));
}
