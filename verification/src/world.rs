//! Several managers at one engine.
//!
//! Each manager runs its create as its own task. The engine serves one
//! request at a time, so the tasks take turns in an order that nobody
//! controls: in each turn one manager has its pending request answered and
//! makes its next one.

use crate::endpoint::{connection_uri_text, lemma_connection_uri_injective};
use crate::engine::{
    any_carries_name, container_config_for, DATABASE_PORT, FIXED_NAME, IMAGE,
};
use crate::error::{EngineFaultView, STATUS_CONFLICT};
use crate::lifecycle::{
    CreateActionView, CreateEventView, ManagerView, Mode, Phase, BOOT_DELAY_MS,
    CONFLICT_BACKOFF_MS,
};
use crate::model::{Container, Engine};
use vstd::prelude::*;

verus! {

/// The engine and the managers that work on it.
pub struct World {
    pub engine: Engine,
    pub managers: Seq<ManagerView>,
    /// For each manager the request that it made last and that is not yet
    /// answered; none before its create has begun.
    pub pending: Seq<Option<CreateActionView>>,
}

impl World {
    /// Whether `i` is the number of a manager.
    pub open spec fn has(self, i: int) -> bool {
        0 <= i < self.managers.len()
    }

    /// A world in which no create has begun: a well-formed engine and
    /// fresh managers of one mode.
    pub open spec fn begins(self, mode: Mode) -> bool {
        &&& self.engine.well_formed()
        &&& self.pending.len() == self.managers.len()
        &&& forall|i: int|
            self.has(i) ==> #[trigger] self.managers[i] == ManagerView::fresh(mode)
                && self.pending[i] is None
    }

    /// One turn: manager `i` is given `event` and the world is `after`
    /// that.
    ///
    /// The event opens the create of a manager that has none pending, or it
    /// answers the manager's pending request: as the model has it or, in a
    /// `lenient` world, with a failure of the request's own. Nothing but the
    /// engine, this manager and its pending request changes.
    pub open spec fn moves(self, i: int, event: CreateEventView, after: World, lenient: bool) -> bool {
        &&& self.has(i)
        &&& match self.pending[i] {
            None => event is Begin && after.engine == self.engine,
            Some(request) => {
                ||| self.engine.answers_create(request, event, after.engine)
                ||| lenient && Engine::refuses(request, event) && after.engine == self.engine
            },
        }
        &&& after.managers == self.managers.update(i, self.managers[i].create_step(event).0)
        &&& after.pending == self.pending.update(i, Some(self.managers[i].create_step(event).1))
    }

    /// Some manager takes a turn.
    pub open spec fn next(self, after: World, lenient: bool) -> bool {
        exists|i: int, event: CreateEventView| self.moves(i, event, after, lenient)
    }
}

/// A course of the world from its beginning, turn by turn.
pub open spec fn is_run(worlds: Seq<World>, mode: Mode, lenient: bool) -> bool {
    &&& worlds.len() > 0
    &&& worlds[0].begins(mode)
    &&& forall|k: int|
        0 <= k < worlds.len() - 1 ==> #[trigger] worlds[k].next(worlds[k + 1], lenient)
}

impl World {
    /// Whether manager `i` has been through the start of its container.
    pub open spec fn started(self, i: int) -> bool {
        let phase = self.managers[i].phase;
        phase is Settling || phase is Connecting || phase is Active
    }

    /// What a dynamic-name manager has to do with the engine: its bound
    /// container is the engine's, publishes on the manager's port and runs
    /// once the manager has been through its start.
    pub open spec fn bound_dynamically(self, i: int) -> bool {
        let manager = self.managers[i];
        &&& manager.mode == Mode::DynamicName
        &&& manager.consistent()
        &&& !manager.phase.tearing_down()
        &&& (manager.phase is Creating ==> (self.pending[i] matches Some(
            CreateActionView::CreateContainer(config),
        ) ==> Some(config.binding.host_port) == manager.port))
        &&& (manager.phase is Starting ==> (self.pending[i] matches Some(
            CreateActionView::StartContainer(target),
        ) ==> Some(target) == manager.identity))
        &&& (manager.identity matches Some(id) ==> self.engine.holds(id) && Some(
            self.engine.containers[id].host_port,
        ) == manager.port)
        &&& (self.started(i) ==> self.engine.containers[manager.identity->0].running)
    }

    /// What holds at every turn of a world of dynamic-name managers.
    pub open spec fn dynamic_invariant(self) -> bool {
        &&& self.engine.well_formed()
        &&& self.pending.len() == self.managers.len()
        &&& forall|i: int| self.has(i) ==> #[trigger] self.bound_dynamically(i)
        &&& forall|i: int, j: int|
            #![trigger self.managers[i], self.managers[j]]
            self.has(i) && self.has(j) && i != j && self.managers[i].identity is Some
                ==> self.managers[i].identity != self.managers[j].identity
    }

    /// No two managers share a container or a port: two that have a
    /// container bound have different ones, and two that have been through
    /// the start of their containers publish on different ports and hand out
    /// different connection strings.
    pub open spec fn isolated(self) -> bool {
        forall|i: int, j: int|
            #![trigger self.managers[i], self.managers[j]]
            self.has(i) && self.has(j) && i != j ==> {
                &&& (self.managers[i].identity is Some ==> self.managers[i].identity
                    != self.managers[j].identity)
                &&& (self.started(i) && self.started(j) ==> {
                    &&& self.managers[i].port is Some
                    &&& self.managers[j].port is Some
                    &&& self.managers[i].port != self.managers[j].port
                    &&& connection_uri_text(self.managers[i].port->0) != connection_uri_text(
                        self.managers[j].port->0,
                    )
                })
            }
    }

    /// A turn keeps the dynamic invariant.
    pub proof fn lemma_dynamic_turn(self, i: int, event: CreateEventView, after: World)
        requires
            self.dynamic_invariant(),
            self.moves(i, event, after, true),
        ensures
            after.dynamic_invariant(),
    {
        let manager = self.managers[i];
        let (moved, request) = manager.create_step(event);
        assert(self.bound_dynamically(i));
        manager.lemma_create_keeps_consistent(event);
        match self.pending[i] {
            Some(CreateActionView::CreateContainer(config)) => {
                if self.engine.answers_create(self.pending[i]->0, event, after.engine) {
                    self.engine.lemma_create_keeps_well_formed(config, event, after.engine);
                }
            },
            Some(CreateActionView::StartContainer(target)) => {
                if self.engine.answers_create(self.pending[i]->0, event, after.engine) {
                    self.engine.lemma_start_keeps_well_formed(target, event, after.engine);
                    if manager.phase is Starting {
                        self.engine.lemma_find_is_unique(manager.identity->0, target);
                    }
                }
            },
            _ => {},
        }
        assert(after.engine.well_formed());
        assert forall|j: int| after.has(j) implies #[trigger] after.bound_dynamically(j) by {
            assert(self.bound_dynamically(j));
            if j != i {
                assert(after.managers[j] == self.managers[j]);
                assert(after.pending[j] == self.pending[j]);
            }
        }
        assert forall|a: int, b: int|
            #![trigger after.managers[a], after.managers[b]]
            after.has(a) && after.has(b) && a != b && after.managers[a].identity is Some implies after.managers[a].identity
            != after.managers[b].identity by {
            assert(self.bound_dynamically(a));
            assert(self.bound_dynamically(b));
            assert(after.bound_dynamically(a));
            assert(after.bound_dynamically(b));
            if a == i {
                assert(after.managers[b] == self.managers[b]);
            } else if b == i {
                assert(after.managers[a] == self.managers[a]);
            } else {
                assert(after.managers[a] == self.managers[a]);
                assert(after.managers[b] == self.managers[b]);
            }
        }
    }

    /// Under the dynamic invariant the managers are isolated.
    pub proof fn lemma_dynamic_invariant_isolates(self)
        requires
            self.dynamic_invariant(),
        ensures
            self.isolated(),
    {
        assert forall|i: int, j: int|
            #![trigger self.managers[i], self.managers[j]]
            self.has(i) && self.has(j) && i != j && self.started(i) && self.started(j) implies {
            &&& self.managers[i].port is Some
            &&& self.managers[j].port is Some
            &&& self.managers[i].port != self.managers[j].port
            &&& connection_uri_text(self.managers[i].port->0) != connection_uri_text(
                self.managers[j].port->0,
            )
        } by {
            assert(self.bound_dynamically(i));
            assert(self.bound_dynamically(j));
            let a = self.managers[i].identity->0;
            let b = self.managers[j].identity->0;
            assert(a != b);
            assert(self.engine.containers[a].host_port != self.engine.containers[b].host_port);
            if connection_uri_text(self.managers[i].port->0) == connection_uri_text(
                self.managers[j].port->0,
            ) {
                lemma_connection_uri_injective(
                    self.managers[i].port->0,
                    self.managers[j].port->0,
                );
            }
        }
    }
}

/// Isolation of dynamic-name managers.
///
/// Any number of fresh dynamic-name managers work on one well-formed engine,
/// their turns in any order, each request answered as the model has it or
/// with a failure of its own. Then at every turn no two managers have the
/// same container bound, and no two that have been through the start of their
/// containers publish on the same port or hand out the same connection
/// string.
pub proof fn lemma_dynamic_managers_are_isolated(worlds: Seq<World>, k: int)
    requires
        is_run(worlds, Mode::DynamicName, true),
        0 <= k < worlds.len(),
    ensures
        worlds[k].isolated(),
{
    lemma_dynamic_run(worlds, k);
    worlds[k].lemma_dynamic_invariant_isolates();
}

/// The dynamic invariant holds at every turn of a run.
proof fn lemma_dynamic_run(worlds: Seq<World>, k: int)
    requires
        is_run(worlds, Mode::DynamicName, true),
        0 <= k < worlds.len(),
    ensures
        worlds[k].dynamic_invariant(),
    decreases k,
{
    if k == 0 {
        let first = worlds[0];
        assert forall|i: int| first.has(i) implies #[trigger] first.bound_dynamically(i) by {
            assert(first.managers[i] == ManagerView::fresh(Mode::DynamicName));
        }
        assert forall|i: int, j: int|
            #![trigger first.managers[i], first.managers[j]]
            first.has(i) && first.has(j) && i != j && first.managers[i].identity is Some implies first.managers[i].identity
            != first.managers[j].identity by {
            assert(first.managers[i] == ManagerView::fresh(Mode::DynamicName));
        }
    } else {
        lemma_dynamic_run(worlds, k - 1);
        let before = worlds[k - 1];
        assert(before.next(worlds[k - 1 + 1], true));
        let (i, event) = choose|i: int, event: CreateEventView|
            before.moves(i, event, worlds[k], true);
        before.lemma_dynamic_turn(i, event, worlds[k]);
    }
}

impl World {
    /// The database port is kept for the container of the fixed name: no
    /// other running container publishes on it.
    pub open spec fn keeps_database_port(self) -> bool {
        forall|id: Seq<char>|
            self.engine.holds(id) && (#[trigger] self.engine.containers[id]).running
                && self.engine.containers[id].host_port == DATABASE_PORT
                ==> self.engine.containers[id].name == FIXED_NAME@
    }

    /// What a fixed-name manager has to do with the engine: its pending
    /// request is the one of its phase, and once it is past the creation the
    /// engine holds the container of the fixed name.
    pub open spec fn bound_fixedly(self, i: int) -> bool {
        let manager = self.managers[i];
        let pending = self.pending[i];
        &&& manager.mode == Mode::FixedName
        &&& manager.consistent()
        &&& match manager.phase {
            Phase::Uninitialized => pending is None,
            Phase::Listing => pending == Some(CreateActionView::ListContainers),
            Phase::Creating => pending == Some(
                CreateActionView::CreateContainer(
                    container_config_for(FIXED_NAME@, DATABASE_PORT),
                ),
            ),
            Phase::Starting => {
                &&& pending == Some(CreateActionView::StartContainer(FIXED_NAME@))
                &&& self.engine.has_named(FIXED_NAME@)
                &&& forall|id: Seq<char>|
                    self.engine.named(id, FIXED_NAME@) ==> (
                    #[trigger] self.engine.containers[id]).host_port == DATABASE_PORT
            },
            Phase::Settling => pending matches Some(CreateActionView::Sleep(_))
                && self.engine.has_named(FIXED_NAME@),
            Phase::Connecting => pending matches Some(CreateActionView::ConnectDatabase(_))
                && self.engine.has_named(FIXED_NAME@),
            Phase::Active => {
                &&& pending matches Some(CreateActionView::Finish(Ok(_)))
                &&& self.engine.has_named(FIXED_NAME@)
                &&& manager.identity == Some(FIXED_NAME@)
            },
            _ => false,
        }
    }

    /// What holds at every turn of a world of fixed-name managers.
    pub open spec fn fixed_invariant(self) -> bool {
        &&& self.engine.well_formed()
        &&& !self.engine.holds(FIXED_NAME@)
        &&& self.keeps_database_port()
        &&& self.pending.len() == self.managers.len()
        &&& forall|i: int| self.has(i) ==> #[trigger] self.bound_fixedly(i)
    }

    /// The managers are united on one container: the engine never holds
    /// two containers of the fixed name, and holds exactly one as soon as one
    /// manager is past the creation; no manager has failed; and a manager
    /// whose create is over is active, with the fixed name bound and its
    /// client connected.
    pub open spec fn united(self) -> bool {
        &&& forall|a: Seq<char>, b: Seq<char>|
            self.engine.named(a, FIXED_NAME@) && self.engine.named(b, FIXED_NAME@) ==> a == b
        &&& forall|i: int|
            self.has(i) ==> {
                let manager = #[trigger] self.managers[i];
                &&& !(manager.phase is Failed)
                &&& (manager.phase is Starting || self.started(i)
                    ==> self.engine.has_one_named(FIXED_NAME@))
                &&& (self.pending[i] matches Some(CreateActionView::Finish(outcome)) ==> {
                    &&& outcome is Ok
                    &&& manager.phase is Active
                    &&& manager.connected
                    &&& manager.identity == Some(FIXED_NAME@)
                })
            }
    }

    /// The turns that a fixed-name manager is away from the end of its
    /// create, at most.
    pub open spec fn turns_left(phase: Phase) -> nat {
        match phase {
            Phase::Uninitialized => 6,
            Phase::Listing => 5,
            Phase::Creating => 4,
            Phase::Starting => 3,
            Phase::Settling => 2,
            Phase::Connecting => 1,
            _ => 0,
        }
    }

    /// A turn keeps the fixed invariant and brings the manager that takes
    /// it nearer to the end of its create.
    pub proof fn lemma_fixed_turn(self, i: int, event: CreateEventView, after: World)
        requires
            self.fixed_invariant(),
            self.moves(i, event, after, false),
        ensures
            after.fixed_invariant(),
            Self::turns_left(after.managers[i].phase) < Self::turns_left(self.managers[i].phase),
    {
        reveal_strlit("temp_mongo_docker");
        let manager = self.managers[i];
        let fixed = FIXED_NAME@;
        assert(fixed.len() > 0);
        assert(self.bound_fixedly(i));
        manager.lemma_create_keeps_consistent(event);
        match self.pending[i] {
            Some(CreateActionView::ListContainers) => {
                assert(after.engine == self.engine);
            },
            Some(CreateActionView::CreateContainer(config)) => {
                self.engine.lemma_create_keeps_well_formed(config, event, after.engine);
                if self.engine.find(fixed) is Some {
                    let found = self.engine.find(fixed)->0;
                    assert(self.engine.goes_by(found, fixed));
                    assert(self.engine.named(found, fixed));
                } else {
                    let id = event->Created_0->Ok_0;
                    assert(after.engine.named(id, fixed));
                    assert forall|other: Seq<char>|
                        after.engine.named(other, fixed) implies (
                    #[trigger] after.engine.containers[other]).host_port == DATABASE_PORT by {
                        if other != id {
                            assert(self.engine.goes_by(other, fixed));
                        }
                    }
                    assert(!after.engine.holds(fixed));
                }
            },
            Some(CreateActionView::StartContainer(target)) => {
                self.engine.lemma_start_keeps_well_formed(target, event, after.engine);
                let found = choose|id: Seq<char>| self.engine.named(id, fixed);
                self.engine.lemma_find_is_unique(found, fixed);
                if !self.engine.containers[found].running && self.engine.port_is_taken(found) {
                    let other = choose|other: Seq<char>|
                        self.engine.holds(other) && other != found && (
                        #[trigger] self.engine.containers[other]).running
                            && self.engine.containers[other].host_port
                            == self.engine.containers[found].host_port;
                    assert(self.engine.named(other, fixed));
                }
                assert(after.engine == self.engine.with_running(found, true));
            },
            _ => {},
        }
        assert(after.engine.well_formed());
        assert forall|name: Seq<char>| self.engine.has_named(name) implies after.engine.has_named(
            name,
        ) by {
            let id = choose|id: Seq<char>| self.engine.named(id, name);
            assert(after.engine.named(id, name));
        }
        assert forall|j: int| after.has(j) implies #[trigger] after.bound_fixedly(j) by {
            assert(self.bound_fixedly(j));
            if j != i {
                assert(after.managers[j] == self.managers[j]);
                assert(after.pending[j] == self.pending[j]);
                if self.managers[j].phase is Starting {
                    assert forall|id: Seq<char>| after.engine.named(id, fixed) implies (
                    #[trigger] after.engine.containers[id]).host_port == DATABASE_PORT by {
                        if !self.engine.named(id, fixed) {
                            let old = choose|old: Seq<char>| self.engine.named(old, fixed);
                            assert(after.engine.named(old, fixed));
                        }
                    }
                }
            }
        }
    }

    /// Under the fixed invariant the managers are united.
    pub proof fn lemma_fixed_invariant_unites(self)
        requires
            self.fixed_invariant(),
        ensures
            self.united(),
    {
        assert forall|i: int| self.has(i) implies {
            let manager = #[trigger] self.managers[i];
            &&& !(manager.phase is Failed)
            &&& (manager.phase is Starting || self.started(i) ==> self.engine.has_one_named(
                FIXED_NAME@,
            ))
            &&& (self.pending[i] matches Some(CreateActionView::Finish(outcome)) ==> {
                &&& outcome is Ok
                &&& manager.phase is Active
                &&& manager.connected
                &&& manager.identity == Some(FIXED_NAME@)
            })
        } by {
            assert(self.bound_fixedly(i));
            if self.engine.has_named(FIXED_NAME@) {
                let id = choose|id: Seq<char>| self.engine.named(id, FIXED_NAME@);
                assert(self.engine.named(id, FIXED_NAME@));
            }
        }
    }
}

/// Uniqueness of the fixed-name container.
///
/// Any number of fresh fixed-name managers work on one well-formed engine
/// in which the database port is kept for the container of the fixed name
/// and no identifier is the fixed name. Their turns come in any order, and
/// nothing is wrong with the engine or the database. Then at every turn the
/// engine holds at most one container of the fixed name, and exactly one as
/// soon as one manager is past the creation; no manager fails, whichever of
/// them the engine answered with a conflict; and every create that is over
/// has ended in success.
pub proof fn lemma_fixed_managers_are_united(worlds: Seq<World>, k: int)
    requires
        is_run(worlds, Mode::FixedName, false),
        worlds[0].keeps_database_port(),
        !worlds[0].engine.holds(FIXED_NAME@),
        0 <= k < worlds.len(),
    ensures
        worlds[k].united(),
{
    lemma_fixed_run(worlds, k);
    worlds[k].lemma_fixed_invariant_unites();
}

/// Every create of such a run comes to its end: each turn of a fixed-name
/// manager leaves it fewer turns away from it, and there are six at most.
pub proof fn lemma_fixed_managers_advance(worlds: Seq<World>, k: int, i: int, event: CreateEventView)
    requires
        is_run(worlds, Mode::FixedName, false),
        worlds[0].keeps_database_port(),
        !worlds[0].engine.holds(FIXED_NAME@),
        0 <= k < worlds.len() - 1,
        worlds[k].moves(i, event, worlds[k + 1], false),
    ensures
        World::turns_left(worlds[k + 1].managers[i].phase) < World::turns_left(
            worlds[k].managers[i].phase,
        ) <= 6,
{
    lemma_fixed_run(worlds, k);
    worlds[k].lemma_fixed_turn(i, event, worlds[k + 1]);
}

/// The fixed invariant holds at every turn of a run.
proof fn lemma_fixed_run(worlds: Seq<World>, k: int)
    requires
        is_run(worlds, Mode::FixedName, false),
        worlds[0].keeps_database_port(),
        !worlds[0].engine.holds(FIXED_NAME@),
        0 <= k < worlds.len(),
    ensures
        worlds[k].fixed_invariant(),
    decreases k,
{
    if k == 0 {
        let first = worlds[0];
        assert forall|i: int| first.has(i) implies #[trigger] first.bound_fixedly(i) by {
            assert(first.managers[i] == ManagerView::fresh(Mode::FixedName));
        }
    } else {
        lemma_fixed_run(worlds, k - 1);
        let before = worlds[k - 1];
        assert(before.next(worlds[k - 1 + 1], false));
        let (i, event) = choose|i: int, event: CreateEventView|
            before.moves(i, event, worlds[k], false);
        before.lemma_fixed_turn(i, event, worlds[k]);
    }
}

/// Runs of fixed-name managers exist, the race among them. Two managers at
/// an engine without containers both list before either creates. The engine
/// makes the container for the first and answers the second with a conflict;
/// the second waits and goes on. Both end active, and the engine holds
/// exactly one container of the fixed name.
pub proof fn lemma_fixed_race_exists() -> (worlds: Seq<World>)
    ensures
        is_run(worlds, Mode::FixedName, false),
        worlds[0].keeps_database_port(),
        !worlds[0].engine.holds(FIXED_NAME@),
        worlds[0].managers.len() == 2,
        forall|i: int|
            0 <= i < 2 ==> (#[trigger] worlds.last().managers[i]).phase is Active
                && worlds.last().pending[i] == Some(CreateActionView::Finish(Ok(()))),
        worlds.last().engine.has_one_named(FIXED_NAME@),
{
    reveal_strlit("temp_mongo_docker");
    reveal_strlit("0");
    let fixed = FIXED_NAME@;
    let id = "0"@;
    assert(fixed.len() != id.len());
    let config = container_config_for(fixed, DATABASE_PORT);
    let uri = connection_uri_text(DATABASE_PORT);
    let conflict = EngineFaultView { status: Some(STATUS_CONFLICT), message: Seq::empty() };
    let empty = Engine { containers: Map::empty() };
    let made = Engine {
        containers: empty.containers.insert(
            id,
            Container { name: fixed, host_port: DATABASE_PORT, running: false },
        ),
    };
    let running = made.with_running(id, true);

    let fresh = ManagerView::fresh(Mode::FixedName);
    let listing = fresh.at(Phase::Listing);
    let creating = ManagerView { port: Some(DATABASE_PORT), ..listing }.at(Phase::Creating);
    let starting = creating.at(Phase::Starting);
    let settling = creating.at(Phase::Settling);
    let connecting = creating.at(Phase::Connecting);
    let active = ManagerView { identity: Some(fixed), connected: true, ..creating }.at(
        Phase::Active,
    );
    let list = Some(CreateActionView::ListContainers);
    let create = Some(CreateActionView::CreateContainer(config));
    let start = Some(CreateActionView::StartContainer(fixed));
    let boot = Some(CreateActionView::Sleep(BOOT_DELAY_MS));
    let back_off = Some(CreateActionView::Sleep(CONFLICT_BACKOFF_MS));
    let connect = Some(CreateActionView::ConnectDatabase(uri));
    let done = Some(CreateActionView::Finish(Ok(())));
    let world = |
        engine: Engine,
        first: ManagerView,
        first_pending: Option<CreateActionView>,
        second: ManagerView,
        second_pending: Option<CreateActionView>,
    |
        World {
            engine,
            managers: seq![first, second],
            pending: seq![first_pending, second_pending],
        };
    let w0 = world(empty, fresh, None, fresh, None);
    let w1 = world(empty, listing, list, fresh, None);
    let w2 = world(empty, listing, list, listing, list);
    let w3 = world(empty, creating, create, listing, list);
    let w4 = world(empty, creating, create, creating, create);
    let w5 = world(made, starting, start, creating, create);
    let w6 = world(made, starting, start, settling, back_off);
    let w7 = world(running, settling, boot, settling, back_off);
    let w8 = world(running, settling, boot, connecting, connect);
    let w9 = world(running, settling, boot, active, done);
    let w10 = world(running, connecting, connect, active, done);
    let w11 = world(running, active, done, active, done);
    let worlds = seq![w0, w1, w2, w3, w4, w5, w6, w7, w8, w9, w10, w11];

    assert(empty.well_formed());
    assert(forall|name: Seq<char>| !empty.has_named(name));
    assert(forall|target: Seq<char>| empty.find(target) is None);
    assert(forall|name: Seq<char>| !any_carries_name(Seq::empty(), name));
    let begin = CreateEventView::Begin;
    let listed = CreateEventView::Listed(Ok(Seq::empty()));
    let created = CreateEventView::Created(Ok(id));
    let refused = CreateEventView::Created(Err(conflict));
    let started = CreateEventView::Started(Ok(()));
    let slept = CreateEventView::Slept;
    let connected = CreateEventView::Connected(Ok(()));
    assert(empty.lists(listed));
    assert(made.containers[id].name == fixed);
    assert(empty.creates(config, created, made));
    empty.lemma_create_keeps_well_formed(config, created, made);
    assert(made.goes_by(id, fixed));
    made.lemma_find_is_unique(id, fixed);
    assert(made.creates(config, refused, made));
    assert(!made.port_is_taken(id));
    assert(made.starts(fixed, started, running));

    assert forall|k: int| 0 <= k < worlds.len() - 1 implies #[trigger] worlds[k].next(
        worlds[k + 1],
        false,
    ) by {
        let (i, event) = if k == 0 {
            (0int, begin)
        } else if k == 1 {
            (1int, begin)
        } else if k == 2 {
            (0int, listed)
        } else if k == 3 {
            (1int, listed)
        } else if k == 4 {
            (0int, created)
        } else if k == 5 {
            (1int, refused)
        } else if k == 6 {
            (0int, started)
        } else if k == 7 {
            (1int, slept)
        } else if k == 8 {
            (1int, connected)
        } else if k == 9 {
            (0int, slept)
        } else {
            (0int, connected)
        };
        let before = worlds[k];
        let after = worlds[k + 1];
        let (moved, request) = before.managers[i].create_step(event);
        assert(after.managers =~= before.managers.update(i, moved));
        assert(after.pending =~= before.pending.update(i, Some(request)));
        assert(before.moves(i, event, after, false));
    }
    assert(running.named(id, fixed));
    assert(forall|other: Seq<char>| running.named(other, fixed) ==> other == id);
    worlds
}

/// Runs of dynamic-name managers exist too: two managers at an engine
/// without containers, one after the other, are each given a port and a
/// container of their own, and both end active.
pub proof fn lemma_dynamic_run_exists() -> (worlds: Seq<World>)
    ensures
        is_run(worlds, Mode::DynamicName, true),
        worlds[0].managers.len() == 2,
        forall|i: int|
            0 <= i < 2 ==> (#[trigger] worlds.last().managers[i]).phase is Active
                && worlds.last().pending[i] == Some(CreateActionView::Finish(Ok(()))),
{
    reveal_strlit("0");
    reveal_strlit("1");
    reveal_strlit("a");
    reveal_strlit("b");
    let (id0, id1, name0, name1) = ("0"@, "1"@, "a"@, "b"@);
    assert(id0[0] != id1[0] && id0[0] != name0[0] && id0[0] != name1[0] && id1[0] != name0[0]
        && id1[0] != name1[0] && name0[0] != name1[0]);
    let (port0, port1) = (40000u16, 40001u16);
    let e0 = Engine { containers: Map::empty() };
    let e1 = Engine {
        containers: e0.containers.insert(
            id0,
            Container { name: name0, host_port: port0, running: false },
        ),
    };
    let e2 = e1.with_running(id0, true);
    let e3 = Engine {
        containers: e2.containers.insert(
            id1,
            Container { name: name1, host_port: port1, running: false },
        ),
    };
    let e4 = e3.with_running(id1, true);

    let fresh = ManagerView::fresh(Mode::DynamicName);
    let done = Some(CreateActionView::Finish(Ok(())));
    // The states of one manager, and its pending request in each.
    let states = |id: Seq<char>, port: u16|
        {
            let pulling = fresh.at(Phase::Pulling);
            let allocating = fresh.at(Phase::Allocating);
            let creating = ManagerView {
                port: Some(port),
                ports: fresh.ports.generate(Some(port)).0,
                ..fresh
            }.at(Phase::Creating);
            let bound = ManagerView { identity: Some(id), ..creating };
            seq![
                (fresh, None),
                (pulling, Some(CreateActionView::PullImage(IMAGE@))),
                (allocating, Some(CreateActionView::ProbePort)),
                (
                    creating,
                    Some(CreateActionView::CreateContainer(container_config_for(Seq::empty(), port))),
                ),
                (bound.at(Phase::Starting), Some(CreateActionView::StartContainer(id))),
                (bound.at(Phase::Settling), Some(CreateActionView::Sleep(BOOT_DELAY_MS))),
                (
                    bound.at(Phase::Connecting),
                    Some(CreateActionView::ConnectDatabase(connection_uri_text(port))),
                ),
                (ManagerView { connected: true, ..bound }.at(Phase::Active), done),
            ]
        };
    let events = |id: Seq<char>, port: u16|
        seq![
            CreateEventView::Begin,
            CreateEventView::Pulled(None),
            CreateEventView::Probed(Some(port)),
            CreateEventView::Created(Ok(id)),
            CreateEventView::Started(Ok(())),
            CreateEventView::Slept,
            CreateEventView::Connected(Ok(())),
        ];
    let first = states(id0, port0);
    let second = states(id1, port1);
    // The engine after each turn of the first manager, then of the second.
    let engines = seq![e0, e0, e0, e0, e1, e2, e2, e2, e2, e2, e2, e3, e4, e4, e4];
    let worlds = Seq::new(
        15,
        |k: int|
            World {
                engine: engines[k],
                managers: seq![first[if k < 7 { k } else { 7 }].0, second[if k < 7 { 0 } else { k - 7 }].0],
                pending: seq![first[if k < 7 { k } else { 7 }].1, second[if k < 7 { 0 } else { k - 7 }].1],
            },
    );

    assert(e0.well_formed());
    assert(forall|target: Seq<char>| e0.find(target) is None);
    let config0 = container_config_for(Seq::empty(), port0);
    let config1 = container_config_for(Seq::empty(), port1);
    assert(e1.containers[id0].name == name0);
    assert(e0.creates(config0, events(id0, port0)[3], e1));
    e0.lemma_create_keeps_well_formed(config0, events(id0, port0)[3], e1);
    assert(e1.goes_by(id0, id0));
    e1.lemma_find_is_unique(id0, id0);
    assert(!e1.port_is_taken(id0));
    assert(e1.starts(id0, events(id0, port0)[4], e2));
    e1.lemma_start_keeps_well_formed(id0, events(id0, port0)[4], e2);
    assert(forall|other: Seq<char>| e2.holds(other) ==> other == id0);
    assert(forall|other: Seq<char>| !e2.goes_by(other, id1));
    assert(forall|other: Seq<char>| !e2.goes_by(other, name1));
    assert(e3.containers[id1].name == name1);
    assert(e2.creates(config1, events(id1, port1)[3], e3));
    e2.lemma_create_keeps_well_formed(config1, events(id1, port1)[3], e3);
    assert(e3.goes_by(id1, id1));
    e3.lemma_find_is_unique(id1, id1);
    assert(!e3.port_is_taken(id1)) by {
        assert(forall|other: Seq<char>| e3.holds(other) ==> other == id0 || other == id1);
    }
    assert(e3.starts(id1, events(id1, port1)[4], e4));

    assert forall|k: int| 0 <= k < worlds.len() - 1 implies #[trigger] worlds[k].next(
        worlds[k + 1],
        true,
    ) by {
        let i = if k < 7 {
            0int
        } else {
            1int
        };
        let turn = if k < 7 {
            k
        } else {
            k - 7
        };
        let event = if k < 7 {
            events(id0, port0)[turn]
        } else {
            events(id1, port1)[turn]
        };
        let before = worlds[k];
        let after = worlds[k + 1];
        let (moved, request) = before.managers[i].create_step(event);
        assert(after.managers =~= before.managers.update(i, moved));
        assert(after.pending =~= before.pending.update(i, Some(request)));
        assert(before.moves(i, event, after, true));
    }
    worlds
}

} // verus!
