//! Contact response: resolving a polled contact event to the tracked
//! entity, and reflecting that entity's velocity across the contact
//! normal.

use vstd::prelude::*;

use crate::motion::check_in_range;
use crate::registry::EntityColliderMap;
use crate::vec3::Vector3;
use crate::vec3::check_normal_in_range;
use crate::vec3::in_range;
use crate::vec3::normal_in_range;
use crate::vec3::reflect;
use crate::vec3::reflected;

verus! {

/// A contact event polled from the collision world, carrying the two
/// collider handles it concerns.
#[derive(Clone, Copy, PartialEq, Eq, Structural, Debug)]
pub enum ContactEvent {
    Started(u64, u64),
    Stopped(u64, u64),
}

/// Which entity a started contact concerns. When both sides are tracked,
/// the second collider's entity receives the response — one fixed rule,
/// so the choice is deterministic.
pub open spec fn resolved_target(m: Map<u64, u64>, a: u64, b: u64) -> Option<u64> {
    if m.contains_key(b) {
        Some(m[b])
    } else if m.contains_key(a) {
        Some(m[a])
    } else {
        None
    }
}

/// The entity a contact event should act on: only contact starts are acted
/// on; sustained contact and contact ends are ignored.
pub open spec fn event_target(m: Map<u64, u64>, e: ContactEvent) -> Option<u64> {
    match e {
        ContactEvent::Started(a, b) => resolved_target(m, a, b),
        ContactEvent::Stopped(_, _) => None,
    }
}

/// Resolves a contact event against the handle records.
pub fn contact_target(map: &EntityColliderMap, event: &ContactEvent) -> (r: Option<u64>)
    ensures
        r == event_target(map@, *event),
{
    match event {
        ContactEvent::Started(a, b) => {
            match map.resolve(*b) {
                Some(e) => Some(e),
                None => map.resolve(*a),
            }
        },
        ContactEvent::Stopped(_, _) => None,
    }
}

/// What one polled event does.
#[derive(Clone, Copy, PartialEq, Eq, Structural, Debug)]
pub enum ContactOutcome {
    /// A started contact with a tracked entity: its velocity becomes the
    /// reflection of the old one across the contact normal.
    Reflected { entity: u64, velocity: Vector3 },
    /// The event ends a contact, or neither collider is tracked — the
    /// expected case for wall-on-wall pairs; nothing happens.
    NoTrackedEntity,
    /// A started contact with a tracked entity whose pair has no computed
    /// manifold: the event is skipped, never a fault.
    MissingManifold { entity: u64 },
}

/// The outcome owed for an event, given the deepest contact normal — when
/// the collision world has one — and the target entity's velocity.
pub open spec fn response_spec(
    m: Map<u64, u64>,
    e: ContactEvent,
    normal: Option<Vector3>,
    vel: Vector3,
) -> ContactOutcome {
    match event_target(m, e) {
        Some(entity) => match normal {
            Some(n) => ContactOutcome::Reflected { entity, velocity: reflected(vel, n) },
            None => ContactOutcome::MissingManifold { entity },
        },
        None => ContactOutcome::NoTrackedEntity,
    }
}

/// Responds to one polled event. `normal` is the deepest contact point's
/// surface normal in ticks, when the collision world has a manifold for
/// the pair; `vel` is the target entity's current velocity.
pub fn contact_response(
    map: &EntityColliderMap,
    event: &ContactEvent,
    normal: Option<Vector3>,
    vel: Vector3,
) -> (r: ContactOutcome)
    requires
        in_range(vel),
        normal matches Some(n) ==> normal_in_range(n),
    ensures
        r == response_spec(map@, *event, normal, vel),
{
    match contact_target(map, event) {
        Some(entity) => match normal {
            Some(n) => ContactOutcome::Reflected { entity, velocity: reflect(vel, n) },
            None => ContactOutcome::MissingManifold { entity },
        },
        None => ContactOutcome::NoTrackedEntity,
    }
}

/// The velocity left after responding to a whole frame's events in polling
/// order: each started contact on a tracked entity with a manifold
/// reflects the velocity the previous events left; every other event — and
/// one reaching the response with out-of-range values — changes nothing.
pub open spec fn frame_velocity(
    m: Map<u64, u64>,
    events: Seq<(ContactEvent, Option<Vector3>)>,
    vel: Vector3,
) -> Vector3
    decreases events.len(),
{
    if events.len() == 0 {
        vel
    } else {
        let (e, normal) = events[0];
        let next = if in_range(vel) && (normal matches Some(n) ==> normal_in_range(n)) {
            match response_spec(m, e, normal, vel) {
                ContactOutcome::Reflected { entity, velocity } => velocity,
                ContactOutcome::NoTrackedEntity => vel,
                ContactOutcome::MissingManifold { entity } => vel,
            }
        } else {
            vel
        };
        frame_velocity(m, events.drop_first(), next)
    }
}

/// Responds to every event polled this frame, each paired with the deepest
/// contact normal of its collider pair when the collision world has one,
/// and returns the velocity the frame leaves behind.
pub fn respond_all(
    map: &EntityColliderMap,
    events: &Vec<(ContactEvent, Option<Vector3>)>,
    vel: Vector3,
) -> (r: Vector3)
    ensures
        r == frame_velocity(map@, events@, vel),
{
    let mut v = vel;
    let mut i: usize = 0;
    proof {
        assert(events@.skip(0) =~= events@);
    }
    while i < events.len()
        invariant
            i <= events@.len(),
            frame_velocity(map@, events@, vel) == frame_velocity(
                map@,
                events@.skip(i as int),
                v,
            ),
        decreases events@.len() - i,
    {
        let (e, normal) = events[i];
        let velocity_ok = check_in_range(&v);
        let normal_ok = match normal {
            Some(n) => check_normal_in_range(&n),
            None => true,
        };
        proof {
            assert(events@.skip(i as int)[0] == events@[i as int]);
            assert(events@.skip(i as int).drop_first() =~= events@.skip(i as int + 1));
        }
        if velocity_ok && normal_ok {
            match contact_response(map, &e, normal, v) {
                ContactOutcome::Reflected { entity: _, velocity } => {
                    v = velocity;
                },
                ContactOutcome::NoTrackedEntity => {},
                ContactOutcome::MissingManifold { entity: _ } => {},
            }
        }
        i = i + 1;
    }
    v
}

} // verus!
