//! The state store: the one lock that guards the registry, and the handle
//! that request handlers and the refresh task share.

use std::sync::Arc;
use vstd::prelude::*;
use vstd::rwlock::RwLock;
use vstd::rwlock::RwLockPredicate;

use crate::clock::read_utc_clock;
use crate::clock::Timestamp;
use crate::registry::answers_of;
use crate::registry::ask_model;
use crate::registry::distinct_ids;
use crate::registry::identity_of;
use crate::registry::lemma_refresh_keeps_identity;
use crate::registry::statuses_of;
use crate::registry::views_of;
use crate::registry::ModelError;
use crate::registry::Motion;
use crate::registry::PositionModel;
use crate::registry::RefreshStatus;
use crate::registry::Registry;
use crate::registry::TrackedObject;
use crate::registry::TrackedObjectView;

verus! {

/// What the lock admits: a well-formed registry that holds exactly the
/// objects the store was made with, by identifier and name and in the same
/// order.
pub struct SameObjects {
    pub identity: Seq<(u64, Seq<char>)>,
}

impl RwLockPredicate<Registry> for SameObjects {
    open spec fn inv(self, registry: Registry) -> bool {
        registry.wf() && identity_of(registry@) == self.identity
    }
}

/// Sole owner of the registry. Every access goes through one lock, and that
/// lock only ever holds a registry that meets [`SameObjects`], so no caller,
/// on whatever thread, sees a half-written registry or one that has lost or
/// gained an object.
///
/// A critical section here is a copy or an in-place update in verified code,
/// which has no failing path; the position model runs outside the lock.
pub struct StateStore {
    lock: RwLock<Registry, SameObjects>,
}

impl StateStore {
    /// Identifier and name of each object the store was made with, in order.
    pub closed spec fn identity(&self) -> Seq<(u64, Seq<char>)> {
        self.lock.pred().identity
    }

    /// `objects` are the objects of this store, each once and in order, in
    /// whatever state.
    pub open spec fn holds(&self, objects: Seq<TrackedObjectView>) -> bool {
        identity_of(objects) == self.identity() && distinct_ids(objects)
    }

    /// `report` is what a pass at `now` reports: the model answered
    /// `outcomes` for a snapshot `basis` of this store, and the answers were
    /// applied to the registry as the store held it at that moment,
    /// `before`.
    pub open spec fn reports_pass<M: PositionModel>(
        &self,
        model: &M,
        now: Timestamp,
        basis: Seq<TrackedObject>,
        before: Seq<TrackedObjectView>,
        outcomes: Seq<Result<Motion, ModelError>>,
        report: Seq<RefreshStatus>,
    ) -> bool {
        &&& self.holds(views_of(basis))
        &&& self.holds(before)
        &&& answers_of(model, basis, now, outcomes)
        &&& report == statuses_of(before, outcomes, now)
    }

    /// A store that owns `registry`.
    pub fn new(registry: Registry) -> (store: StateStore)
        requires
            registry.wf(),
        ensures
            store.identity() == identity_of(registry@),
    {
        let ghost admitted = SameObjects { identity: identity_of(registry@) };
        StateStore { lock: RwLock::new(registry, Ghost(admitted)) }
    }

    /// An owned copy of the registry as it stands at some moment between
    /// call and return.
    ///
    /// Whatever other callers do meanwhile, the copy is a whole registry:
    /// it holds the store's objects, each once and in order.
    pub fn snapshot(&self) -> (copy: Vec<TrackedObject>)
        ensures
            copy.len() == self.identity().len(),
            self.holds(views_of(copy@)),
    {
        let guard = self.lock.acquire_read();
        let copy = guard.borrow().snapshot();
        guard.release_read();
        assert(identity_of(views_of(copy@)).len() == copy.len());
        copy
    }

    /// One refresh pass at `now`, and what became of each object.
    ///
    /// The model works on a snapshot, outside the lock. Its answers are then
    /// applied in one critical section, as [`Registry::apply_refresh`] does,
    /// so a concurrent snapshot holds the registry from before the pass or
    /// from after it. An object that another pass has meanwhile moved past
    /// `now` is reported as stale and left alone.
    pub fn refresh_all<M: PositionModel>(&self, model: &M, now: Timestamp) -> (report: Vec<
        RefreshStatus,
    >)
        ensures
            report.len() == self.identity().len(),
            exists|
                basis: Seq<TrackedObject>,
                before: Seq<TrackedObjectView>,
                outcomes: Seq<Result<Motion, ModelError>>,
            | self.reports_pass(model, now, basis, before, outcomes, report@),
    {
        let basis = self.snapshot();
        let outcomes = ask_model(&basis, model, now);
        let (mut registry, guard) = self.lock.acquire_write();
        let ghost before = registry@;
        assert(outcomes.len() == before.len()) by {
            assert(identity_of(views_of(basis@)).len() == basis.len());
            assert(identity_of(before).len() == before.len());
        }
        let report = registry.commit(&outcomes, now);
        proof {
            lemma_refresh_keeps_identity(before, outcomes@, now);
        }
        guard.release_write(registry);
        assert(self.reports_pass(model, now, basis@, before, outcomes@, report@));
        report
    }

    /// One refresh pass at the instant that the system clock shows when the
    /// pass begins: [`StateStore::refresh_all`] with that instant.
    pub fn refresh_now<M: PositionModel>(&self, model: &M) -> (report: Vec<RefreshStatus>)
        ensures
            report.len() == self.identity().len(),
            exists|
                now: Timestamp,
                basis: Seq<TrackedObject>,
                before: Seq<TrackedObjectView>,
                outcomes: Seq<Result<Motion, ModelError>>,
            | self.reports_pass(model, now, basis, before, outcomes, report@),
    {
        self.refresh_all(model, read_utc_clock())
    }
}

/// What every request handler and the refresh task hold: a shared handle on
/// the one state store.
#[derive(Clone)]
pub struct AppState {
    pub satellite_service: Arc<StateStore>,
}

impl AppState {
    /// A handle on a new store that owns `registry`.
    pub fn new(registry: Registry) -> (state: AppState)
        requires
            registry.wf(),
        ensures
            state.satellite_service.identity() == identity_of(registry@),
    {
        AppState { satellite_service: Arc::new(StateStore::new(registry)) }
    }
}

} // verus!
