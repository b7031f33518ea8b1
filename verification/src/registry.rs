//! The registry of tracked objects and its two operations: copy everything
//! out, and recompute every object in one pass.

use vstd::prelude::*;

use crate::clock::Timestamp;

verus! {

/// A point in an Earth-centred frame, in metres along each axis.
#[derive(Clone, Copy, Debug, PartialEq, Eq, Structural)]
pub struct Position {
    pub x: i64,
    pub y: i64,
    pub z: i64,
}

/// A rate of change of position, in metres per second along each axis.
#[derive(Clone, Copy, Debug, PartialEq, Eq, Structural)]
pub struct Velocity {
    pub x: i64,
    pub y: i64,
    pub z: i64,
}

/// What a position model computes for one object at one instant.
#[derive(Clone, Copy, Debug, PartialEq, Eq, Structural)]
pub struct Motion {
    pub position: Position,
    pub velocity: Option<Velocity>,
}

/// Why a position model gave no result for an object.
#[derive(Clone, Copy, Debug, PartialEq, Eq, Structural)]
pub enum ModelError {
    /// The object carries too little state for the model to work from.
    MissingState,
    /// The result does not fit the coordinate range.
    OutOfRange,
    /// The model cannot compute the requested instant.
    Unavailable,
}

/// One tracked satellite.
#[derive(Debug)]
pub struct TrackedObject {
    pub id: u64,
    pub name: String,
    pub position: Position,
    pub velocity: Option<Velocity>,
    pub last_updated: Timestamp,
}

/// A tracked object as the contracts see it: the name is a sequence of
/// characters.
pub struct TrackedObjectView {
    pub id: u64,
    pub name: Seq<char>,
    pub position: Position,
    pub velocity: Option<Velocity>,
    pub last_updated: Timestamp,
}

impl View for TrackedObject {
    type V = TrackedObjectView;

    open spec fn view(&self) -> TrackedObjectView {
        TrackedObjectView {
            id: self.id,
            name: self.name@,
            position: self.position,
            velocity: self.velocity,
            last_updated: self.last_updated,
        }
    }
}

impl Clone for TrackedObject {
    fn clone(&self) -> (copy: Self)
        ensures
            copy == *self,
    {
        TrackedObject {
            id: self.id,
            name: self.name.clone(),
            position: self.position,
            velocity: self.velocity,
            last_updated: self.last_updated,
        }
    }
}

/// The views of a sequence of objects, in the same order.
pub open spec fn views_of(objects: Seq<TrackedObject>) -> Seq<TrackedObjectView> {
    Seq::new(objects.len(), |i: int| objects[i]@)
}

/// What never changes of the objects of a registry: identifier and name of
/// each, in registry order.
pub open spec fn identity_of(objects: Seq<TrackedObjectView>) -> Seq<(u64, Seq<char>)> {
    Seq::new(objects.len(), |i: int| (objects[i].id, objects[i].name))
}

/// No identifier occurs at two places.
pub open spec fn distinct_ids(objects: Seq<TrackedObjectView>) -> bool {
    forall|i: int, j: int|
        0 <= i < objects.len() && 0 <= j < objects.len() && i != j ==> objects[i].id
            != objects[j].id
}

/// Whether one object of a refresh pass takes its new state: the model gave
/// a result, and the pass is not older than the state the object already
/// has.
pub open spec fn takes_update(
    object: TrackedObjectView,
    outcome: Result<Motion, ModelError>,
    now: Timestamp,
) -> bool {
    outcome is Ok && object.last_updated.at_or_before(now)
}

/// One object after a refresh pass. It either takes position, velocity and
/// instant of this pass together, or stays as it was.
pub open spec fn refreshed_object(
    object: TrackedObjectView,
    outcome: Result<Motion, ModelError>,
    now: Timestamp,
) -> TrackedObjectView {
    if takes_update(object, outcome, now) {
        TrackedObjectView {
            id: object.id,
            name: object.name,
            position: outcome->Ok_0.position,
            velocity: outcome->Ok_0.velocity,
            last_updated: now,
        }
    } else {
        object
    }
}

/// The registry after a refresh pass in which the model returned
/// `outcomes[i]` for the object at place `i`.
pub open spec fn refreshed(
    objects: Seq<TrackedObjectView>,
    outcomes: Seq<Result<Motion, ModelError>>,
    now: Timestamp,
) -> Seq<TrackedObjectView> {
    Seq::new(objects.len(), |i: int| refreshed_object(objects[i], outcomes[i], now))
}

/// What a refresh pass did with one object.
#[derive(Clone, Copy, Debug, PartialEq, Eq, Structural)]
pub enum RefreshStatus {
    /// The object took the state computed in this pass.
    Updated,
    /// The model failed; the object keeps its prior state.
    Failed(ModelError),
    /// The object already holds a state later than this pass; it keeps it.
    Stale,
}

/// The status that a pass reports for one object.
pub open spec fn status_of(
    object: TrackedObjectView,
    outcome: Result<Motion, ModelError>,
    now: Timestamp,
) -> RefreshStatus {
    match outcome {
        Err(e) => RefreshStatus::Failed(e),
        Ok(_) => if object.last_updated.at_or_before(now) {
            RefreshStatus::Updated
        } else {
            RefreshStatus::Stale
        },
    }
}

/// The statuses of a whole pass, in registry order.
pub open spec fn statuses_of(
    objects: Seq<TrackedObjectView>,
    outcomes: Seq<Result<Motion, ModelError>>,
    now: Timestamp,
) -> Seq<RefreshStatus> {
    Seq::new(objects.len(), |i: int| status_of(objects[i], outcomes[i], now))
}

/// A rule that computes where an object is at a given instant.
///
/// The registry asks nothing of a model but an answer per object: a model
/// may fail for some objects and succeed for others. What a model promises
/// of its answers, in an `ensures` of its own `propagate`, carries over to
/// every pass that uses it: see [`answers_of`].
pub trait PositionModel {
    fn propagate(&self, object: &TrackedObject, at: Timestamp) -> Result<Motion, ModelError>;
}

/// `outcomes` are answers of `model` for `objects` at `now`: one per object
/// and in the same order, each one an answer that `propagate` may give for
/// that object and that instant.
pub open spec fn answers_of<M: PositionModel>(
    model: &M,
    objects: Seq<TrackedObject>,
    now: Timestamp,
    outcomes: Seq<Result<Motion, ModelError>>,
) -> bool {
    &&& outcomes.len() == objects.len()
    &&& forall|i: int|
        0 <= i < objects.len() ==> call_ensures(
            M::propagate,
            (model, &objects[i], now),
            #[trigger] outcomes[i],
        )
}

/// Why a set of objects cannot seed a registry.
#[derive(Clone, Copy, Debug, PartialEq, Eq, Structural)]
pub enum RegistryError {
    /// Two objects carry this identifier.
    DuplicateId(u64),
    /// A refresh pass brought `given` results for `expected` objects.
    OutcomeCount { expected: usize, given: usize },
}

/// The tracked objects, in the order in which they were seeded. No two share
/// an identifier.
pub struct Registry {
    objects: Vec<TrackedObject>,
}

impl View for Registry {
    type V = Seq<TrackedObjectView>;

    open spec fn view(&self) -> Seq<TrackedObjectView> {
        views_of(self.objects())
    }
}

impl Registry {
    /// The objects themselves, in registry order.
    pub closed spec fn objects(&self) -> Seq<TrackedObject> {
        self.objects@
    }

    /// The invariant of a registry: no two objects share an identifier.
    pub open spec fn wf(&self) -> bool {
        distinct_ids(self@)
    }

    /// A registry without objects.
    pub fn new() -> (registry: Registry)
        ensures
            registry.wf(),
            registry.objects() == Seq::<TrackedObject>::empty(),
            registry@ == Seq::<TrackedObjectView>::empty(),
    {
        let registry = Registry { objects: Vec::new() };
        assert(registry@ =~= Seq::<TrackedObjectView>::empty());
        registry
    }

    /// A registry that holds `objects` in the given order. Where an
    /// identifier occurs twice, the error names the identifier of the first
    /// object that repeats an earlier one.
    pub fn seed(objects: Vec<TrackedObject>) -> (seeded: Result<Registry, RegistryError>)
        ensures
            distinct_ids(views_of(objects@)) <==> seeded is Ok,
            seeded matches Ok(registry) ==> registry.wf() && registry.objects() == objects@,
            seeded matches Err(RegistryError::DuplicateId(id)) ==> exists|i: int, j: int|
                0 <= i < j < objects.len() && objects[i].id == id && objects[j].id == id && forall|
                    a: int,
                    b: int,
                | 0 <= a < b < j ==> objects[a].id != objects[b].id,
    {
        let n = objects.len();
        let mut j: usize = 0;
        while j < n
            invariant
                n == objects.len(),
                j <= n,
                forall|a: int, b: int| 0 <= a < b < j ==> objects[a].id != objects[b].id,
            decreases n - j,
        {
            let mut i: usize = 0;
            while i < j
                invariant
                    n == objects.len(),
                    j < n,
                    i <= j,
                    forall|a: int, b: int| 0 <= a < b < j ==> objects[a].id != objects[b].id,
                    forall|a: int| 0 <= a < i ==> objects[a].id != objects[j as int].id,
                decreases j - i,
            {
                if objects[i].id == objects[j].id {
                    assert(views_of(objects@)[i as int].id == views_of(objects@)[j as int].id);
                    return Err(RegistryError::DuplicateId(objects[i].id));
                }
                i += 1;
            }
            j += 1;
        }
        Ok(Registry { objects })
    }

    /// The number of tracked objects.
    pub fn len(&self) -> (n: usize)
        ensures
            n == self@.len(),
    {
        self.objects.len()
    }

    /// An owned copy of every object, in registry order.
    pub fn snapshot(&self) -> (copy: Vec<TrackedObject>)
        ensures
            copy@ == self.objects(),
            views_of(copy@) == self@,
    {
        let n = self.objects.len();
        let mut copy: Vec<TrackedObject> = Vec::new();
        let mut i: usize = 0;
        while i < n
            invariant
                n == self.objects.len(),
                i <= n,
                copy.len() == i,
                forall|k: int| 0 <= k < i ==> copy[k] == self.objects[k],
            decreases n - i,
        {
            copy.push(self.objects[i].clone());
            i += 1;
        }
        assert(copy@ =~= self.objects());
        copy
    }

    /// Applies the results of one refresh pass, one per object and in
    /// registry order, and reports what became of each object.
    ///
    /// An object whose result is an error keeps its prior state, and so does
    /// an object that already holds a state later than `now`. Where the
    /// number of results is not the number of objects, nothing is applied.
    pub fn apply_refresh(
        &mut self,
        outcomes: &Vec<Result<Motion, ModelError>>,
        now: Timestamp,
    ) -> (applied: Result<Vec<RefreshStatus>, RegistryError>)
        requires
            old(self).wf(),
        ensures
            final(self).wf(),
            outcomes.len() == old(self)@.len() <==> applied is Ok,
            applied matches Ok(report) ==> final(self)@ == refreshed(old(self)@, outcomes@, now)
                && report@ == statuses_of(old(self)@, outcomes@, now),
            applied matches Err(error) ==> *final(self) == *old(self) && error
                == (RegistryError::OutcomeCount {
                expected: old(self)@.len() as usize,
                given: outcomes.len(),
            }),
    {
        if outcomes.len() != self.objects.len() {
            return Err(
                RegistryError::OutcomeCount {
                    expected: self.objects.len(),
                    given: outcomes.len(),
                },
            );
        }
        Ok(self.commit(outcomes, now))
    }

    /// Applies one result per object, in registry order.
    pub(crate) fn commit(
        &mut self,
        outcomes: &Vec<Result<Motion, ModelError>>,
        now: Timestamp,
    ) -> (report: Vec<RefreshStatus>)
        requires
            old(self).wf(),
            outcomes.len() == old(self)@.len(),
        ensures
            final(self).wf(),
            final(self)@ == refreshed(old(self)@, outcomes@, now),
            report@ == statuses_of(old(self)@, outcomes@, now),
    {
        let n = self.objects.len();
        let mut report: Vec<RefreshStatus> = Vec::new();
        let mut i: usize = 0;
        while i < n
            invariant
                n == self.objects.len(),
                n == outcomes.len(),
                n == old(self).objects.len(),
                i <= n,
                report.len() == i,
                forall|k: int|
                    0 <= k < i ==> self.objects[k]@ == refreshed_object(
                        old(self).objects[k]@,
                        outcomes[k],
                        now,
                    ),
                forall|k: int| i <= k < n ==> self.objects[k]@ == old(self).objects[k]@,
                forall|k: int|
                    0 <= k < i ==> report[k] == status_of(old(self).objects[k]@, outcomes[k], now),
            decreases n - i,
        {
            let status = match outcomes[i] {
                Err(e) => RefreshStatus::Failed(e),
                Ok(motion) => {
                    if self.objects[i].last_updated.is_at_or_before(&now) {
                        let current = &self.objects[i];
                        let updated = TrackedObject {
                            id: current.id,
                            name: current.name.clone(),
                            position: motion.position,
                            velocity: motion.velocity,
                            last_updated: now,
                        };
                        self.objects.set(i, updated);
                        RefreshStatus::Updated
                    } else {
                        RefreshStatus::Stale
                    }
                },
            };
            report.push(status);
            i += 1;
        }
        assert(self@ =~= refreshed(old(self)@, outcomes@, now));
        proof {
            lemma_refresh_keeps_identity(old(self)@, outcomes@, now);
        }
        assert(report@ =~= statuses_of(old(self)@, outcomes@, now));
        report
    }

    /// One full refresh pass: asks `model` where each object is at `now`,
    /// then applies all answers together.
    ///
    /// Registry and report are what [`Registry::apply_refresh`] makes of
    /// the model's answers for the objects as they were before the pass.
    pub fn refresh_all<M: PositionModel>(&mut self, model: &M, now: Timestamp) -> (report: Vec<
        RefreshStatus,
    >)
        requires
            old(self).wf(),
        ensures
            final(self).wf(),
            exists|outcomes: Seq<Result<Motion, ModelError>>|
                answers_of(model, old(self).objects(), now, outcomes) && final(self)@
                    == refreshed(old(self)@, outcomes, now) && report@ == statuses_of(
                    old(self)@,
                    outcomes,
                    now,
                ),
    {
        let outcomes = ask_model(&self.objects, model, now);
        self.commit(&outcomes, now)
    }
}

/// The model's answer for each of `objects` at `now`, in the same order.
///
/// The model is asked once per object, with the object as it stands in
/// `objects`.
pub fn ask_model<M: PositionModel>(
    objects: &Vec<TrackedObject>,
    model: &M,
    now: Timestamp,
) -> (outcomes: Vec<Result<Motion, ModelError>>)
    ensures
        answers_of(model, objects@, now, outcomes@),
{
    let n = objects.len();
    let mut outcomes: Vec<Result<Motion, ModelError>> = Vec::new();
    let mut i: usize = 0;
    while i < n
        invariant
            n == objects.len(),
            i <= n,
            outcomes.len() == i,
            forall|k: int|
                0 <= k < i ==> call_ensures(
                    M::propagate,
                    (model, &objects@[k], now),
                    #[trigger] outcomes@[k],
                ),
        decreases n - i,
    {
        outcomes.push(model.propagate(&objects[i], now));
        i += 1;
    }
    outcomes
}

/// A refresh pass changes neither the identifier nor the name of any object,
/// nor the order of the registry: identifiers stay distinct.
pub proof fn lemma_refresh_keeps_identity(
    objects: Seq<TrackedObjectView>,
    outcomes: Seq<Result<Motion, ModelError>>,
    now: Timestamp,
)
    ensures
        refreshed(objects, outcomes, now).len() == objects.len(),
        forall|i: int|
            0 <= i < objects.len() ==> (#[trigger] refreshed(objects, outcomes, now)[i]).id
                == objects[i].id && refreshed(objects, outcomes, now)[i].name == objects[i].name,
        identity_of(refreshed(objects, outcomes, now)) == identity_of(objects),
        distinct_ids(objects) ==> distinct_ids(refreshed(objects, outcomes, now)),
{
    assert(identity_of(refreshed(objects, outcomes, now)) =~= identity_of(objects));
}

/// A pass is atomic per object: afterwards each object is either exactly as
/// it was, or carries position, velocity and instant of this one pass.
pub proof fn lemma_refresh_never_mixes(
    objects: Seq<TrackedObjectView>,
    outcomes: Seq<Result<Motion, ModelError>>,
    now: Timestamp,
    i: int,
)
    requires
        0 <= i < objects.len(),
    ensures
        ({
            let after = refreshed(objects, outcomes, now)[i];
            ||| after == objects[i]
            ||| (outcomes[i] matches Ok(motion) && after.position == motion.position
                && after.velocity == motion.velocity && after.last_updated == now)
        }),
        status_of(objects[i], outcomes[i], now) is Updated <==> takes_update(
            objects[i],
            outcomes[i],
            now,
        ),
        !takes_update(objects[i], outcomes[i], now) ==> refreshed(objects, outcomes, now)[i]
            == objects[i],
{
}

/// The instant of an object's last update never goes back in a pass,
/// whatever the model answers and whatever `now` is.
pub proof fn lemma_last_updated_never_goes_back(
    objects: Seq<TrackedObjectView>,
    outcomes: Seq<Result<Motion, ModelError>>,
    now: Timestamp,
    i: int,
)
    requires
        0 <= i < objects.len(),
    ensures
        objects[i].last_updated.at_or_before(refreshed(objects, outcomes, now)[i].last_updated),
{
}

/// After a pass in which the model answered for every object, and which is
/// not older than any object's state, all objects carry the instant of that
/// pass: none is older than another.
pub proof fn lemma_complete_pass_is_uniform(
    objects: Seq<TrackedObjectView>,
    outcomes: Seq<Result<Motion, ModelError>>,
    now: Timestamp,
)
    requires
        outcomes.len() == objects.len(),
        forall|i: int| 0 <= i < objects.len() ==> takes_update(objects[i], outcomes[i], now),
    ensures
        forall|i: int|
            0 <= i < objects.len() ==> (#[trigger] refreshed(objects, outcomes, now)[i]).last_updated
                == now,
        forall|i: int, j: int|
            0 <= i < objects.len() && 0 <= j < objects.len() ==> (#[trigger] refreshed(
                objects,
                outcomes,
                now,
            )[i]).last_updated == (#[trigger] refreshed(objects, outcomes, now)[j]).last_updated,
{
}

/// Snapshots that follow a pass with no other pass in between all hold the
/// registry as that pass left it, so any two of them agree object by object.
pub proof fn lemma_snapshots_agree(
    objects: Seq<TrackedObjectView>,
    outcomes: Seq<Result<Motion, ModelError>>,
    now: Timestamp,
    first: Seq<TrackedObject>,
    second: Seq<TrackedObject>,
)
    requires
        views_of(first) == refreshed(objects, outcomes, now),
        views_of(second) == refreshed(objects, outcomes, now),
    ensures
        first.len() == objects.len(),
        second.len() == objects.len(),
        forall|i: int| 0 <= i < objects.len() ==> first[i]@ == second[i]@,
{
    assert(views_of(first).len() == first.len());
    assert(views_of(second).len() == second.len());
    assert forall|i: int| 0 <= i < objects.len() implies first[i]@ == second[i]@ by {
        assert(views_of(first)[i] == first[i]@);
        assert(views_of(second)[i] == second[i]@);
    }
}

} // verus!
