use orbitalos_backend::clock::Timestamp;
use orbitalos_backend::registry::ask_model;
use orbitalos_backend::registry::ModelError;
use orbitalos_backend::registry::Motion;
use orbitalos_backend::registry::Position;
use orbitalos_backend::registry::PositionModel;
use orbitalos_backend::registry::RefreshStatus;
use orbitalos_backend::registry::Registry;
use orbitalos_backend::registry::RegistryError;
use orbitalos_backend::registry::TrackedObject;
use orbitalos_backend::registry::Velocity;

fn object(id: u64, name: &str, secs: i64) -> TrackedObject {
    TrackedObject {
        id,
        name: name.to_string(),
        position: Position { x: 1, y: 2, z: 3 },
        velocity: Some(Velocity { x: 10, y: 20, z: 30 }),
        last_updated: Timestamp::new(secs, 0),
    }
}

fn moved(x: i64) -> Result<Motion, ModelError> {
    Ok(Motion { position: Position { x, y: 0, z: 0 }, velocity: None })
}

/// Puts every object at x = its identifier plus the second asked for.
struct ByIdentifier;

impl PositionModel for ByIdentifier {
    fn propagate(&self, object: &TrackedObject, at: Timestamp) -> Result<Motion, ModelError> {
        Ok(Motion {
            position: Position { x: object.id as i64 + at.secs, y: 0, z: 0 },
            velocity: object.velocity,
        })
    }
}

/// Fails for objects with an odd identifier.
struct FailsOnOdd;

impl PositionModel for FailsOnOdd {
    fn propagate(&self, object: &TrackedObject, _at: Timestamp) -> Result<Motion, ModelError> {
        if object.id % 2 == 1 {
            Err(ModelError::Unavailable)
        } else {
            Ok(Motion { position: Position { x: 99, y: 98, z: 97 }, velocity: None })
        }
    }
}

#[test]
fn empty_registry_has_no_objects() {
    let registry = Registry::new();
    assert_eq!(registry.len(), 0);
    assert!(registry.snapshot().is_empty());
}

#[test]
fn seed_keeps_order_and_contents() {
    let registry = Registry::seed(vec![object(7, "a", 1), object(3, "b", 2)]).unwrap();
    assert_eq!(registry.len(), 2);
    let snapshot = registry.snapshot();
    assert_eq!(snapshot[0].id, 7);
    assert_eq!(snapshot[0].name, "a");
    assert_eq!(snapshot[0].position, Position { x: 1, y: 2, z: 3 });
    assert_eq!(snapshot[0].velocity, Some(Velocity { x: 10, y: 20, z: 30 }));
    assert_eq!(snapshot[0].last_updated, Timestamp::new(1, 0));
    assert_eq!(snapshot[1].id, 3);
    assert_eq!(snapshot[1].name, "b");
}

#[test]
fn seed_refuses_a_repeated_identifier() {
    let seeded = Registry::seed(vec![object(1, "a", 0), object(2, "b", 0), object(1, "c", 0)]);
    assert!(matches!(seeded, Err(RegistryError::DuplicateId(1))));
}

#[test]
fn seed_names_the_first_object_that_repeats() {
    let seeded = Registry::seed(vec![
        object(5, "a", 0),
        object(6, "b", 0),
        object(6, "c", 0),
        object(5, "d", 0),
    ]);
    assert!(matches!(seeded, Err(RegistryError::DuplicateId(6))));
}

#[test]
fn snapshot_of_three_seeded_objects() {
    let registry =
        Registry::seed(vec![object(10, "a", 0), object(20, "b", 0), object(30, "c", 0)]).unwrap();
    let snapshot = registry.snapshot();
    assert_eq!(snapshot.len(), 3);
    let ids: Vec<u64> = snapshot.iter().map(|o| o.id).collect();
    assert!(ids.contains(&10));
    assert!(ids.contains(&20));
    assert!(ids.contains(&30));
}

#[test]
fn refresh_all_advances_every_object() {
    let mut registry =
        Registry::seed(vec![object(10, "a", 5), object(20, "b", 6), object(30, "c", 7)]).unwrap();
    let report = registry.refresh_all(&ByIdentifier, Timestamp::new(100, 0));
    assert_eq!(report, vec![RefreshStatus::Updated; 3]);
    let snapshot = registry.snapshot();
    assert_eq!(snapshot.len(), 3);
    for object in &snapshot {
        assert_eq!(object.last_updated, Timestamp::new(100, 0));
        assert_eq!(object.position, Position { x: object.id as i64 + 100, y: 0, z: 0 });
    }
}

#[test]
fn complete_pass_leaves_no_object_older_than_another() {
    let mut registry =
        Registry::seed(vec![object(1, "a", 5), object(2, "b", 50), object(3, "c", 7)]).unwrap();
    registry.refresh_all(&ByIdentifier, Timestamp::new(60, 1));
    let snapshot = registry.snapshot();
    assert!(snapshot.iter().all(|o| o.last_updated == snapshot[0].last_updated));
    assert_eq!(snapshot[0].last_updated, Timestamp::new(60, 1));
}

#[test]
fn repeated_snapshots_after_a_refresh_are_identical() {
    let mut registry = Registry::seed(vec![object(1, "a", 5), object(2, "b", 6)]).unwrap();
    registry.refresh_all(&ByIdentifier, Timestamp::new(9, 0));
    let first = registry.snapshot();
    let second = registry.snapshot();
    let third = registry.snapshot();
    assert_eq!(first.len(), second.len());
    assert_eq!(first.len(), third.len());
    for i in 0..first.len() {
        for other in [&second[i], &third[i]] {
            assert_eq!(first[i].id, other.id);
            assert_eq!(first[i].name, other.name);
            assert_eq!(first[i].position, other.position);
            assert_eq!(first[i].velocity, other.velocity);
            assert_eq!(first[i].last_updated, other.last_updated);
        }
    }
}

#[test]
fn failed_object_keeps_its_prior_state() {
    let mut registry = Registry::seed(vec![object(1, "odd", 5), object(2, "even", 6)]).unwrap();
    let report = registry.refresh_all(&FailsOnOdd, Timestamp::new(10, 0));
    assert_eq!(
        report,
        vec![RefreshStatus::Failed(ModelError::Unavailable), RefreshStatus::Updated]
    );
    let snapshot = registry.snapshot();
    assert_eq!(snapshot[0].position, Position { x: 1, y: 2, z: 3 });
    assert_eq!(snapshot[0].velocity, Some(Velocity { x: 10, y: 20, z: 30 }));
    assert_eq!(snapshot[0].last_updated, Timestamp::new(5, 0));
    assert_eq!(snapshot[1].position, Position { x: 99, y: 98, z: 97 });
    assert_eq!(snapshot[1].velocity, None);
    assert_eq!(snapshot[1].last_updated, Timestamp::new(10, 0));
}

#[test]
fn pass_older_than_an_object_is_stale_for_it() {
    let mut registry = Registry::seed(vec![object(1, "new", 50), object(2, "old", 5)]).unwrap();
    let report = registry.apply_refresh(&vec![moved(7), moved(8)], Timestamp::new(20, 0)).unwrap();
    assert_eq!(report, vec![RefreshStatus::Stale, RefreshStatus::Updated]);
    let snapshot = registry.snapshot();
    assert_eq!(snapshot[0].position, Position { x: 1, y: 2, z: 3 });
    assert_eq!(snapshot[0].last_updated, Timestamp::new(50, 0));
    assert_eq!(snapshot[1].position, Position { x: 8, y: 0, z: 0 });
    assert_eq!(snapshot[1].last_updated, Timestamp::new(20, 0));
}

#[test]
fn pass_at_the_instant_of_an_object_updates_it() {
    let mut registry = Registry::seed(vec![object(1, "a", 50)]).unwrap();
    let report = registry.apply_refresh(&vec![moved(7)], Timestamp::new(50, 0)).unwrap();
    assert_eq!(report, vec![RefreshStatus::Updated]);
    assert_eq!(registry.snapshot()[0].position.x, 7);
}

#[test]
fn nanoseconds_order_instants_within_one_second() {
    let mut registry = Registry::seed(vec![TrackedObject {
        last_updated: Timestamp::new(50, 500),
        ..object(1, "a", 0)
    }])
    .unwrap();
    let earlier = registry.apply_refresh(&vec![moved(7)], Timestamp::new(50, 499)).unwrap();
    assert_eq!(earlier, vec![RefreshStatus::Stale]);
    let later = registry.apply_refresh(&vec![moved(7)], Timestamp::new(50, 501)).unwrap();
    assert_eq!(later, vec![RefreshStatus::Updated]);
}

#[test]
fn last_updated_never_goes_back() {
    let mut registry = Registry::seed(vec![object(1, "a", 10), object(2, "b", 30)]).unwrap();
    let mut previous: Vec<Timestamp> =
        registry.snapshot().iter().map(|o| o.last_updated).collect();
    for secs in [20, 5, 40, 39, 40, 0] {
        registry.refresh_all(&ByIdentifier, Timestamp::new(secs, 0));
        let current: Vec<Timestamp> =
            registry.snapshot().iter().map(|o| o.last_updated).collect();
        for i in 0..current.len() {
            assert!(previous[i].is_at_or_before(&current[i]));
        }
        previous = current;
    }
    assert_eq!(previous, vec![Timestamp::new(40, 0), Timestamp::new(40, 0)]);
}

#[test]
fn identity_survives_refresh() {
    let mut registry = Registry::seed(vec![object(4, "four", 0), object(2, "two", 0)]).unwrap();
    registry.refresh_all(&FailsOnOdd, Timestamp::new(1, 0));
    registry.refresh_all(&ByIdentifier, Timestamp::new(2, 0));
    let snapshot = registry.snapshot();
    assert_eq!(snapshot.len(), 2);
    assert_eq!((snapshot[0].id, snapshot[0].name.as_str()), (4, "four"));
    assert_eq!((snapshot[1].id, snapshot[1].name.as_str()), (2, "two"));
}

#[test]
fn apply_refresh_refuses_a_wrong_number_of_results() {
    let mut registry = Registry::seed(vec![object(1, "a", 0), object(2, "b", 0)]).unwrap();
    let refused = registry.apply_refresh(&vec![moved(7)], Timestamp::new(20, 0));
    assert_eq!(refused, Err(RegistryError::OutcomeCount { expected: 2, given: 1 }));
    let snapshot = registry.snapshot();
    assert_eq!(snapshot[0].position, Position { x: 1, y: 2, z: 3 });
    assert_eq!(snapshot[0].last_updated, Timestamp::new(0, 0));
    assert_eq!(snapshot[1].position, Position { x: 1, y: 2, z: 3 });
}

#[test]
fn ask_model_answers_once_per_object_in_order() {
    let objects = vec![object(1, "a", 0), object(2, "b", 0), object(3, "c", 0)];
    let outcomes = ask_model(&objects, &FailsOnOdd, Timestamp::new(1, 0));
    assert_eq!(outcomes.len(), 3);
    assert_eq!(outcomes[0], Err(ModelError::Unavailable));
    assert!(outcomes[1].is_ok());
    assert_eq!(outcomes[2], Err(ModelError::Unavailable));
}

#[test]
fn clone_of_an_object_is_equal_field_by_field() {
    let original = object(9, "nine", 3);
    let copy = original.clone();
    assert_eq!(copy.id, 9);
    assert_eq!(copy.name, "nine");
    assert_eq!(copy.position, original.position);
    assert_eq!(copy.velocity, original.velocity);
    assert_eq!(copy.last_updated, original.last_updated);
}
