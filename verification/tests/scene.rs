use bounce::scene::ALL_GROUPS;
use bounce::scene::ShapeKind;
use bounce::scene::ball_collider;
use bounce::scene::ball_groups;
use bounce::scene::can_interact;
use bounce::scene::pose_from_translation;
use bounce::scene::setup_bookkeeping;
use bounce::scene::wall_colliders;
use bounce::scene::wall_groups;
use bounce::scene::CollisionObjectData;
use bounce::vec3::Vector3;

#[test]
fn pose_sync_sets_translation_and_zero_rotation() {
    // after setting the entity position to (3, 4, 5), the collision
    // object's pose is that translation with zero rotation.
    let p = pose_from_translation(Vector3::new(3000, 4000, 5000));
    assert_eq!(p.translation, Vector3::new(3000, 4000, 5000));
    assert_eq!(p.rotation, Vector3::new(0, 0, 0));
}

#[test]
fn room_has_seven_static_walls() {
    let walls = wall_colliders();
    assert_eq!(walls.len(), 7);
    for wall in &walls {
        assert!(!wall.dynamic);
        assert_eq!(wall.prediction, 0);
        assert_eq!(wall.groups, wall_groups());
    }
}

#[test]
fn ball_collider_is_a_dynamic_half_unit_sphere() {
    let ball = ball_collider();
    assert!(ball.dynamic);
    assert_eq!(ball.prediction, 0);
    assert_eq!(ball.shape, ShapeKind::Sphere { radius: 500 });
    assert_eq!(ball.pose.translation, Vector3::new(1000, 1000, 1000));
    assert_eq!(ball.pose.rotation, Vector3::new(0, 0, 0));
    assert_eq!(ball.groups, ball_groups());
}

#[test]
fn filters_let_the_ball_meet_walls_but_not_walls_each_other() {
    let ball = ball_groups();
    let wall = wall_groups();
    assert!(can_interact(&ball, &wall));
    assert!(can_interact(&wall, &ball));
    assert!(!can_interact(&wall, &wall));
    assert_eq!(ball.whitelist, ALL_GROUPS);
}

#[test]
fn setup_records_only_the_ball_handle() {
    let ball_handle: u64 = 8;
    let ball_entity: u64 = 42;
    let map = setup_bookkeeping(ball_handle, ball_entity);
    assert_eq!(map.resolve(ball_handle), Some(ball_entity));
    let mut wall_handle: u64 = 1;
    while wall_handle <= 7 {
        assert_eq!(map.resolve(wall_handle), None);
        wall_handle += 1;
    }
}

#[test]
fn collision_object_data_keeps_its_name() {
    let data = CollisionObjectData::new("ball");
    assert_eq!(data.name, "ball");
    let copy = data.clone();
    assert_eq!(copy.name, "ball");
}
