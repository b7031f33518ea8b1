use orbitalos_backend::clock::Timestamp;
use orbitalos_backend::model::LinearMotion;
use orbitalos_backend::registry::ModelError;
use orbitalos_backend::registry::Motion;
use orbitalos_backend::registry::Position;
use orbitalos_backend::registry::PositionModel;
use orbitalos_backend::registry::TrackedObject;
use orbitalos_backend::registry::Velocity;

fn moving(position: Position, velocity: Option<Velocity>, secs: i64) -> TrackedObject {
    TrackedObject {
        id: 1,
        name: "probe".to_string(),
        position,
        velocity,
        last_updated: Timestamp::new(secs, 0),
    }
}

#[test]
fn linear_motion_adds_velocity_times_elapsed_seconds() {
    let object = moving(
        Position { x: 1, y: 2, z: 3 },
        Some(Velocity { x: 10, y: 0, z: -1 }),
        100,
    );
    let outcome = LinearMotion.propagate(&object, Timestamp::new(110, 999));
    assert_eq!(
        outcome,
        Ok(Motion {
            position: Position { x: 101, y: 2, z: -7 },
            velocity: Some(Velocity { x: 10, y: 0, z: -1 }),
        })
    );
}

#[test]
fn linear_motion_goes_back_for_an_earlier_instant() {
    let object = moving(Position { x: 0, y: 0, z: 0 }, Some(Velocity { x: 3, y: 3, z: 3 }), 100);
    let outcome = LinearMotion.propagate(&object, Timestamp::new(98, 0));
    assert_eq!(outcome.unwrap().position, Position { x: -6, y: -6, z: -6 });
}

#[test]
fn linear_motion_needs_a_velocity() {
    let object = moving(Position { x: 1, y: 2, z: 3 }, None, 100);
    assert_eq!(
        LinearMotion.propagate(&object, Timestamp::new(110, 0)),
        Err(ModelError::MissingState)
    );
}

#[test]
fn linear_motion_reports_a_coordinate_out_of_range() {
    let object =
        moving(Position { x: i64::MAX, y: 0, z: 0 }, Some(Velocity { x: 1, y: 0, z: 0 }), 0);
    assert_eq!(LinearMotion.propagate(&object, Timestamp::new(1, 0)), Err(ModelError::OutOfRange));
}

#[test]
fn linear_motion_reaches_the_edge_of_the_range() {
    let object =
        moving(Position { x: i64::MAX - 5, y: 0, z: 0 }, Some(Velocity { x: 1, y: 0, z: 0 }), 0);
    let outcome = LinearMotion.propagate(&object, Timestamp::new(5, 0));
    assert_eq!(outcome.unwrap().position.x, i64::MAX);
}

#[test]
fn linear_motion_survives_the_widest_spread_of_instants() {
    let still =
        moving(Position { x: 7, y: 8, z: 9 }, Some(Velocity { x: 0, y: 0, z: 0 }), i64::MIN);
    let outcome = LinearMotion.propagate(&still, Timestamp::new(i64::MAX, 0));
    assert_eq!(outcome.unwrap().position, Position { x: 7, y: 8, z: 9 });
    let fast = moving(
        Position { x: i64::MIN, y: 0, z: 0 },
        Some(Velocity { x: i64::MIN, y: 0, z: 0 }),
        i64::MAX,
    );
    assert_eq!(
        LinearMotion.propagate(&fast, Timestamp::new(i64::MIN, 0)),
        Err(ModelError::OutOfRange)
    );
}
