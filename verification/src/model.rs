//! A model of the container engine, and what a teardown leaves behind in an
//! engine that behaves like the model.
//!
//! The model says what this crate relies on: an identifier or a name finds
//! at most one container, a name is given to one container only, a host
//! port serves one running container, a stopped container stays, a removed
//! one is gone. Nothing here runs: the model is what the laws of this crate
//! are stated over.

use crate::engine::{any_carries_name, ContainerConfigView};
use crate::error::TempMongoDockerErrorView;
use crate::lifecycle::{
    CreateActionView, CreateEventView, ManagerView, Phase, TeardownActionView, TeardownEventView,
};
use vstd::prelude::*;

verus! {

/// Status by which the engine reports that it holds no such container.
pub const STATUS_NOT_FOUND: u16 = 404;

/// A container as the engine holds it.
pub struct Container {
    /// The name that it carries: the one asked for, or one that the engine
    /// picked.
    pub name: Seq<char>,
    /// The host port that it publishes the database on while it runs.
    pub host_port: u16,
    pub running: bool,
}

/// The engine: its containers, each under the identifier that the engine
/// gave it.
pub struct Engine {
    pub containers: Map<Seq<char>, Container>,
}

impl Engine {
    /// Whether the engine holds a container with this identifier.
    pub open spec fn holds(self, id: Seq<char>) -> bool {
        self.containers.dom().contains(id)
    }

    /// Whether the engine holds container `id` under the name `name`.
    pub open spec fn named(self, id: Seq<char>, name: Seq<char>) -> bool {
        self.holds(id) && self.containers[id].name == name
    }

    /// Whether some container carries the name `name`.
    pub open spec fn has_named(self, name: Seq<char>) -> bool {
        exists|id: Seq<char>| self.named(id, name)
    }

    /// Whether exactly one container carries the name `name`.
    pub open spec fn has_one_named(self, name: Seq<char>) -> bool {
        exists|id: Seq<char>|
            #[trigger] self.named(id, name) && forall|other: Seq<char>|
                self.named(other, name) ==> other == id
    }

    /// Whether container `id` is meant by `target`, which may be its
    /// identifier or its name.
    pub open spec fn goes_by(self, id: Seq<char>, target: Seq<char>) -> bool {
        self.holds(id) && (id == target || self.containers[id].name == target)
    }

    /// The container that `target` means, if there is one.
    pub open spec fn find(self, target: Seq<char>) -> Option<Seq<char>> {
        if exists|id: Seq<char>| self.goes_by(id, target) {
            Some(choose|id: Seq<char>| self.goes_by(id, target))
        } else {
            None
        }
    }

    /// What the engine keeps true of its containers: no two carry the same
    /// name, none carries the identifier of a container as its name, and no
    /// two that run publish on the same host port.
    pub open spec fn well_formed(self) -> bool {
        &&& forall|a: Seq<char>, b: Seq<char>, name: Seq<char>|
            self.named(a, name) && self.named(b, name) ==> a == b
        &&& forall|a: Seq<char>, b: Seq<char>| self.holds(a) ==> !#[trigger] self.named(b, a)
        &&& forall|a: Seq<char>, b: Seq<char>|
            #![trigger self.containers[a], self.containers[b]]
            self.holds(a) && self.holds(b) && a != b && self.containers[a].running
                && self.containers[b].running ==> self.containers[a].host_port
                != self.containers[b].host_port
    }

    /// In a well-formed engine a target means one container at most.
    pub proof fn lemma_find_is_unique(self, id: Seq<char>, target: Seq<char>)
        requires
            self.well_formed(),
            self.goes_by(id, target),
        ensures
            self.find(target) == Some(id),
    {
        let found = choose|other: Seq<char>| self.goes_by(other, target);
        if found != id {
            if found == target {
                assert(self.named(id, found));
            } else if id == target {
                assert(self.named(found, id));
            } else {
                assert(self.named(found, target) && self.named(id, target));
            }
        }
    }

    /// The engine with container `id` running or not.
    pub open spec fn with_running(self, id: Seq<char>, running: bool) -> Engine {
        Engine {
            containers: self.containers.insert(
                id,
                Container { running, ..self.containers[id] },
            ),
        }
    }

    /// How the engine answers a request to stop `target`: a container that
    /// is found no longer runs and is otherwise as it was; where none is
    /// found the engine reports that.
    pub open spec fn stops(self, target: Seq<char>, event: TeardownEventView, after: Engine) -> bool {
        match self.find(target) {
            Some(id) => event == TeardownEventView::Stopped(Ok(())) && after == self.with_running(
                id,
                false,
            ),
            None => {
                &&& after == self
                &&& event matches TeardownEventView::Stopped(Err(fault))
                &&& fault.status == Some(STATUS_NOT_FOUND)
            },
        }
    }

    /// How the engine answers a request to remove `target`: a container
    /// that is found and does not run is gone afterwards; one that runs is
    /// refused; where none is found the engine reports that.
    pub open spec fn removes(self, target: Seq<char>, event: TeardownEventView, after: Engine) -> bool {
        match self.find(target) {
            Some(id) => if self.containers[id].running {
                &&& after == self
                &&& event matches TeardownEventView::Removed(Err(fault))
                &&& fault.is_conflict()
            } else {
                event == TeardownEventView::Removed(Ok(())) && after == (Engine {
                    containers: self.containers.remove(id),
                })
            },
            None => {
                &&& after == self
                &&& event matches TeardownEventView::Removed(Err(fault))
                &&& fault.status == Some(STATUS_NOT_FOUND)
            },
        }
    }

    /// How the engine answers a request of a teardown.
    pub open spec fn answers_teardown(
        self,
        request: TeardownActionView,
        event: TeardownEventView,
        after: Engine,
    ) -> bool {
        match request {
            TeardownActionView::StopContainer(target) => self.stops(target, event, after),
            TeardownActionView::RemoveContainer(target) => self.removes(target, event, after),
            TeardownActionView::Finish(_) => false,
        }
    }

    /// How the engine answers a request for its list: with a list that
    /// shows a name exactly when a container carries it.
    pub open spec fn lists(self, event: CreateEventView) -> bool {
        &&& event matches CreateEventView::Listed(Ok(containers))
        &&& forall|name: Seq<char>|
            #[trigger] any_carries_name(containers, name) == self.has_named(name)
    }

    /// How the engine answers a request to create a container.
    ///
    /// Where a name is asked for that already means a container, the engine
    /// reports a conflict and makes nothing. Else it makes a container that
    /// does not run yet, under an identifier that meant nothing so far and
    /// under the name asked for; where none is asked for, under a name of its
    /// own choice that meant nothing so far.
    pub open spec fn creates(
        self,
        config: ContainerConfigView,
        event: CreateEventView,
        after: Engine,
    ) -> bool {
        if config.name.len() > 0 && self.find(config.name) is Some {
            &&& after == self
            &&& event matches CreateEventView::Created(Err(fault))
            &&& fault.is_conflict()
        } else {
            &&& event matches CreateEventView::Created(Ok(id))
            &&& self.find(id) is None
            &&& after.containers == self.containers.insert(id, after.containers[id])
            &&& after.containers[id].host_port == config.binding.host_port
            &&& !after.containers[id].running
            &&& after.containers[id].name != id
            &&& self.find(after.containers[id].name) is None
            &&& config.name.len() > 0 ==> after.containers[id].name == config.name
        }
    }

    /// Whether a running container other than `id` publishes on the host
    /// port that `id` is to publish on.
    pub open spec fn port_is_taken(self, id: Seq<char>) -> bool {
        exists|other: Seq<char>|
            self.holds(other) && other != id && (#[trigger] self.containers[other]).running
                && self.containers[other].host_port == self.containers[id].host_port
    }

    /// How the engine answers a request to start `target`: a container that
    /// is found runs afterwards, unless another running container has its
    /// host port, which the engine reports; where none is found the engine
    /// reports that.
    pub open spec fn starts(self, target: Seq<char>, event: CreateEventView, after: Engine) -> bool {
        match self.find(target) {
            Some(id) => if !self.containers[id].running && self.port_is_taken(id) {
                &&& after == self
                &&& event matches CreateEventView::Started(Err(fault))
            } else {
                &&& after == self.with_running(id, true)
                &&& event matches CreateEventView::Started(Ok(_))
            },
            None => {
                &&& after == self
                &&& event matches CreateEventView::Started(Err(fault))
                &&& fault.status == Some(STATUS_NOT_FOUND)
            },
        }
    }

    /// How a request of a create is answered when nothing is wrong with the
    /// engine, the image, the system or the database: the engine answers as
    /// modelled, the pull makes progress or comes to its end, the probe finds
    /// a port or none, the delay passes, the database client connects.
    pub open spec fn answers_create(
        self,
        request: CreateActionView,
        event: CreateEventView,
        after: Engine,
    ) -> bool {
        match request {
            CreateActionView::ListContainers => after == self && self.lists(event),
            CreateActionView::PullImage(_) | CreateActionView::NextPullItem => {
                &&& after == self
                &&& event is Pulled
                &&& !(event->Pulled_0 matches Some(Err(_)))
            },
            CreateActionView::ProbePort => after == self && event is Probed,
            CreateActionView::CreateContainer(config) => self.creates(config, event, after),
            CreateActionView::StartContainer(target) => self.starts(target, event, after),
            CreateActionView::Sleep(_) => after == self && event is Slept,
            CreateActionView::ConnectDatabase(_) => {
                &&& after == self
                &&& event matches CreateEventView::Connected(Ok(_))
            },
            CreateActionView::Finish(_) => false,
        }
    }

    /// How a request of a create is answered when it fails for a reason of
    /// its own, which no model foresees: the engine is down, the image is
    /// unknown, no database answers. A conflict is no such answer.
    pub open spec fn refuses(request: CreateActionView, event: CreateEventView) -> bool {
        match request {
            CreateActionView::ListContainers => event matches CreateEventView::Listed(Err(_)),
            CreateActionView::PullImage(_) | CreateActionView::NextPullItem => {
                event matches CreateEventView::Pulled(Some(Err(_)))
            },
            CreateActionView::CreateContainer(_) => {
                &&& event matches CreateEventView::Created(Err(fault))
                &&& !fault.is_conflict()
            },
            CreateActionView::StartContainer(_) => event matches CreateEventView::Started(Err(_)),
            CreateActionView::ConnectDatabase(_) => {
                event matches CreateEventView::Connected(Err(_))
            },
            _ => false,
        }
    }

    /// Creating a container leaves the engine well formed and every other
    /// container as it was.
    pub proof fn lemma_create_keeps_well_formed(
        self,
        config: ContainerConfigView,
        event: CreateEventView,
        after: Engine,
    )
        requires
            self.well_formed(),
            self.creates(config, event, after),
        ensures
            after.well_formed(),
            forall|other: Seq<char>| self.holds(other) ==> after.holds(other),
            forall|other: Seq<char>|
                self.holds(other) ==> #[trigger] after.containers[other] == self.containers[other],
            forall|name: Seq<char>| self.has_named(name) ==> after.has_named(name),
            event matches CreateEventView::Created(Ok(id)) ==> !self.holds(id) && after.holds(id),
    {
        if event matches CreateEventView::Created(Ok(_)) {
            let id = event->Created_0->Ok_0;
            let made = after.containers[id];
            assert(!self.goes_by(id, id));
            assert(after.holds(id));
            assert forall|other: Seq<char>| self.holds(other) implies #[trigger] after.containers[other]
                == self.containers[other] && after.holds(other) by {
                assert(other != id);
            }
            assert forall|name: Seq<char>| self.has_named(name) implies after.has_named(name) by {
                let a = choose|a: Seq<char>| self.named(a, name);
                assert(after.named(a, name));
            }
            assert forall|a: Seq<char>, name: Seq<char>| after.named(a, name) implies a == id
                || self.named(a, name) by {}
            assert forall|a: Seq<char>, b: Seq<char>, name: Seq<char>|
                after.named(a, name) && after.named(b, name) implies a == b by {
                if a == id && b != id {
                    assert(self.goes_by(b, made.name));
                }
                if b == id && a != id {
                    assert(self.goes_by(a, made.name));
                }
            }
            assert forall|a: Seq<char>, b: Seq<char>| after.holds(a) implies !#[trigger] after.named(
                b,
                a,
            ) by {
                if after.named(b, a) {
                    if b == id {
                        assert(a != id);
                        assert(self.goes_by(a, made.name));
                    } else {
                        assert(self.named(b, a));
                        if a == id {
                            assert(self.goes_by(b, id));
                        }
                    }
                }
            }
        }
    }

    /// Starting a container leaves the engine well formed, changes nothing
    /// but whether that container runs, and stops nothing.
    pub proof fn lemma_start_keeps_well_formed(
        self,
        target: Seq<char>,
        event: CreateEventView,
        after: Engine,
    )
        requires
            self.well_formed(),
            self.starts(target, event, after),
        ensures
            after.well_formed(),
            after.containers.dom() == self.containers.dom(),
            forall|other: Seq<char>|
                self.holds(other) ==> (#[trigger] after.containers[other]).name
                    == self.containers[other].name && after.containers[other].host_port
                    == self.containers[other].host_port && (self.containers[other].running
                    ==> after.containers[other].running),
            forall|other: Seq<char>|
                self.holds(other) && self.find(target) != Some(other) ==> #[trigger] after.containers[other]
                    == self.containers[other],
            event matches CreateEventView::Started(Ok(_)) ==> self.find(target) is Some
                && after.containers[self.find(target)->0].running,
    {
        if after != self {
            let id = self.find(target)->0;
            assert(self.goes_by(id, target));
            assert(after == self.with_running(id, true));
            assert(after.containers.dom() =~= self.containers.dom());
            assert forall|a: Seq<char>, name: Seq<char>| after.named(a, name) == self.named(
                a,
                name,
            ) by {}
            assert forall|a: Seq<char>, b: Seq<char>| after.holds(a) implies !#[trigger] after.named(
                b,
                a,
            ) by {
                assert(self.holds(a));
                assert(after.named(b, a) == self.named(b, a));
            }
            assert forall|a: Seq<char>, b: Seq<char>|
                #![trigger after.containers[a], after.containers[b]]
                after.holds(a) && after.holds(b) && a != b && after.containers[a].running
                    && after.containers[b].running implies after.containers[a].host_port
                != after.containers[b].host_port by {
                if a == id {
                    assert(self.containers[b].running);
                } else if b == id {
                    assert(self.containers[a].running);
                }
            }
        }
    }

    /// Stopping a container leaves the engine well formed, and every target
    /// means what it meant.
    pub proof fn lemma_stop_keeps_well_formed(self, id: Seq<char>)
        requires
            self.well_formed(),
            self.holds(id),
        ensures
            self.with_running(id, false).well_formed(),
            forall|other: Seq<char>, target: Seq<char>|
                self.with_running(id, false).goes_by(other, target) == self.goes_by(other, target),
    {
        let after = self.with_running(id, false);
        assert forall|a: Seq<char>, name: Seq<char>| after.named(a, name) == self.named(
            a,
            name,
        ) by {}
        assert forall|a: Seq<char>, b: Seq<char>| after.holds(a) implies !#[trigger] after.named(
            b,
            a,
        ) by {
            assert(self.holds(a));
            assert(after.named(b, a) == self.named(b, a));
        }
        assert forall|a: Seq<char>, b: Seq<char>|
            #![trigger after.containers[a], after.containers[b]]
            after.holds(a) && after.holds(b) && a != b && after.containers[a].running
                && after.containers[b].running implies after.containers[a].host_port
            != after.containers[b].host_port by {
            assert(self.containers[a].running && self.containers[b].running);
        }
    }

    /// Removing a container leaves the engine well formed, and the target
    /// that meant the container means nothing any more.
    pub proof fn lemma_remove_keeps_well_formed(self, id: Seq<char>, target: Seq<char>)
        requires
            self.well_formed(),
            self.goes_by(id, target),
        ensures
            (Engine { containers: self.containers.remove(id) }).well_formed(),
            (Engine { containers: self.containers.remove(id) }).find(target) is None,
    {
        let after = Engine { containers: self.containers.remove(id) };
        assert forall|a: Seq<char>, name: Seq<char>| after.named(a, name) implies self.named(
            a,
            name,
        ) by {}
        assert forall|a: Seq<char>, b: Seq<char>| after.holds(a) implies !#[trigger] after.named(
            b,
            a,
        ) by {
            assert(self.holds(a));
            if after.named(b, a) {
                assert(self.named(b, a));
            }
        }
        assert forall|other: Seq<char>| !after.goes_by(other, target) by {
            if after.goes_by(other, target) {
                assert(self.goes_by(other, target));
                self.lemma_find_is_unique(other, target);
                self.lemma_find_is_unique(id, target);
            }
        }
    }
}

/// After a teardown that keeps the container, the container is stopped and
/// still there.
///
/// A manager is bound to a container that the engine holds, and the keeping
/// teardown is begun. The one request it makes is to stop the container.
/// When the engine has answered, the teardown ends in success, and the engine
/// still holds the container, with its name and its port, but not running.
pub proof fn lemma_kill_not_clean_keeps(
    manager: ManagerView,
    engine: Engine,
    id: Seq<char>,
    stopped: TeardownEventView,
    after: Engine,
)
    requires
        engine.well_formed(),
        manager.identity is Some,
        engine.goes_by(id, manager.identity->0),
        engine.answers_teardown(
            manager.teardown_step(TeardownEventView::Begin, false).1,
            stopped,
            after,
        ),
    ensures
        manager.teardown_step(TeardownEventView::Begin, false).1
            == TeardownActionView::StopContainer(manager.identity->0),
        ({
            let begun = manager.teardown_step(TeardownEventView::Begin, false).0;
            let (ended, last) = begun.teardown_step(stopped, false);
            &&& last == TeardownActionView::Finish(Ok(()))
            &&& ended == manager.at(Phase::TornDown)
        }),
        after.holds(id),
        !after.containers[id].running,
        after.containers[id].name == engine.containers[id].name,
        after.containers[id].host_port == engine.containers[id].host_port,
        after.well_formed(),
{
    engine.lemma_find_is_unique(id, manager.identity->0);
    engine.lemma_stop_keeps_well_formed(id);
}

/// After a teardown that removes the container, the container is gone, and
/// with it all that it held.
///
/// A manager is bound to a container that the engine holds, and the removing
/// teardown is begun. It asks for the container to be stopped, and when the
/// engine has done that, for it to be removed. When the engine has done that
/// too, the teardown ends in success: the engine holds every other container
/// as before and this one no longer, under its identifier or its name.
pub proof fn lemma_kill_and_clean_removes(
    manager: ManagerView,
    engine: Engine,
    id: Seq<char>,
    stopped: TeardownEventView,
    between: Engine,
    removed: TeardownEventView,
    after: Engine,
)
    requires
        engine.well_formed(),
        manager.identity is Some,
        engine.goes_by(id, manager.identity->0),
        engine.answers_teardown(
            manager.teardown_step(TeardownEventView::Begin, true).1,
            stopped,
            between,
        ),
        between.answers_teardown(
            manager.teardown_step(TeardownEventView::Begin, true).0.teardown_step(stopped, true).1,
            removed,
            after,
        ),
    ensures
        manager.teardown_step(TeardownEventView::Begin, true).1
            == TeardownActionView::StopContainer(manager.identity->0),
        ({
            let begun = manager.teardown_step(TeardownEventView::Begin, true).0;
            let (halted, second) = begun.teardown_step(stopped, true);
            let (ended, last) = halted.teardown_step(removed, true);
            &&& second == TeardownActionView::RemoveContainer(manager.identity->0)
            &&& last == TeardownActionView::Finish(Ok(()))
            &&& ended == manager.at(Phase::TornDown)
        }),
        !after.holds(id),
        after.find(manager.identity->0) is None,
        after.containers == engine.containers.remove(id),
        after.well_formed(),
{
    let target = manager.identity->0;
    engine.lemma_find_is_unique(id, target);
    engine.lemma_stop_keeps_well_formed(id);
    assert(between == engine.with_running(id, false));
    assert(between.goes_by(id, target));
    between.lemma_find_is_unique(id, target);
    between.lemma_remove_keeps_well_formed(id, target);
    assert(between.containers.remove(id) =~= engine.containers.remove(id));
}

/// A teardown of a container that the engine no longer holds does not pass
/// in silence: the engine's answer comes back as the failure of the
/// teardown.
///
/// A manager is still bound to a container that is gone, as it is after a
/// removing teardown. A teardown of either form asks the engine to stop the
/// container, the engine reports that there is none, and the teardown ends
/// with that report. Nothing in the engine changes.
pub proof fn lemma_teardown_of_missing_container_fails(
    manager: ManagerView,
    engine: Engine,
    remove: bool,
    stopped: TeardownEventView,
    after: Engine,
)
    requires
        manager.identity is Some,
        engine.find(manager.identity->0) is None,
        engine.answers_teardown(
            manager.teardown_step(TeardownEventView::Begin, remove).1,
            stopped,
            after,
        ),
    ensures
        after == engine,
        stopped matches TeardownEventView::Stopped(Err(fault)) && fault.status == Some(
            STATUS_NOT_FOUND,
        ) && ({
            let begun = manager.teardown_step(TeardownEventView::Begin, remove).0;
            begun.teardown_step(stopped, remove) == (
                manager.at(Phase::Failed),
                TeardownActionView::Finish(
                    Err(TempMongoDockerErrorView::BollardConnectionError(fault)),
                ),
            )
        }),
{
}

} // verus!
