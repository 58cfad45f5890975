//! The life of a manager as a state machine: its states, the events that
//! move it and the requests that it makes, all as mathematical values.

use crate::endpoint::connection_uri_text;
use crate::engine::{
    any_carries_name, container_config_for, ContainerConfigView, DATABASE_PORT, FIXED_NAME, IMAGE,
};
use crate::error::{EngineFaultView, TempMongoDockerErrorView};
use crate::port::{usable, Allocation, PortGeneratorView, MAX_ATTEMPTS};
use vstd::prelude::*;

verus! {

/// Milliseconds that a started server is given to come up before the first
/// connection.
pub const BOOT_DELAY_MS: u64 = 50;

/// Milliseconds to wait after the engine reported that another caller is
/// creating the container of the same name.
pub const CONFLICT_BACKOFF_MS: u64 = 50;

/// How the manager's container is identified.
#[derive(Clone, Copy, Debug, PartialEq, Eq, Structural)]
pub enum Mode {
    /// One container for each manager, named by the engine.
    DynamicName,
    /// One container for all managers, under a name that is known
    /// beforehand.
    FixedName,
}

/// Where a manager stands in its life.
#[derive(Clone, Copy, Debug, PartialEq, Eq, Structural)]
pub enum Phase {
    /// Nothing was asked of the engine yet.
    Uninitialized,
    /// Waiting for the list of containers.
    Listing,
    /// Waiting for the next item of the image pull.
    Pulling,
    /// Waiting for a port probe.
    Allocating,
    /// Waiting for the engine to create the container.
    Creating,
    /// Waiting for the engine to start the container.
    Starting,
    /// Waiting for a delay to pass.
    Settling,
    /// Waiting for the database client.
    Connecting,
    /// The container runs and the database client is connected.
    Active,
    /// Waiting for the engine to stop the container, which is then kept.
    Stopping,
    /// Waiting for the engine to stop the container, which is then removed.
    StoppingForRemoval,
    /// Waiting for the engine to remove the container.
    Removing,
    /// The container was stopped, and removed if that was asked for.
    TornDown,
    /// An operation failed. The manager creates nothing any more; a bound
    /// container can still be torn down.
    Failed,
}

/// Mathematical value of a [`CreateEvent`]. Of a database client it keeps
/// only that there is one.
pub enum CreateEventView {
    Begin,
    Listed(Result<Seq<Seq<Seq<char>>>, EngineFaultView>),
    Pulled(Option<Result<(), Seq<char>>>),
    Probed(Option<u16>),
    Created(Result<Seq<char>, EngineFaultView>),
    Started(Result<(), EngineFaultView>),
    Slept,
    Connected(Result<(), Seq<char>>),
}

/// Mathematical value of a [`CreateAction`].
pub enum CreateActionView {
    ListContainers,
    PullImage(Seq<char>),
    NextPullItem,
    ProbePort,
    CreateContainer(ContainerConfigView),
    StartContainer(Seq<char>),
    Sleep(u64),
    ConnectDatabase(Seq<char>),
    Finish(Result<(), TempMongoDockerErrorView>),
}

/// Mathematical value of a [`TeardownEvent`].
pub enum TeardownEventView {
    Begin,
    Stopped(Result<(), EngineFaultView>),
    Removed(Result<(), EngineFaultView>),
}

/// Mathematical value of a [`TeardownAction`].
pub enum TeardownActionView {
    StopContainer(Seq<char>),
    RemoveContainer(Seq<char>),
    Finish(Result<(), TempMongoDockerErrorView>),
}

/// Mathematical value of a manager: everything that its decisions depend
/// on.
pub struct ManagerView {
    pub mode: Mode,
    pub phase: Phase,
    /// The container bound to the manager: an identifier that the engine
    /// gave, or the fixed name.
    pub identity: Option<Seq<char>>,
    /// The host port that the database is published on.
    pub port: Option<u16>,
    pub ports: PortGeneratorView,
    /// Whether the manager holds a database client.
    pub connected: bool,
}

impl ManagerView {
    /// The manager as it is made: nothing bound, nothing asked.
    pub open spec fn fresh(mode: Mode) -> ManagerView {
        ManagerView {
            mode,
            phase: Phase::Uninitialized,
            identity: None,
            port: None,
            ports: PortGeneratorView::fresh(),
            connected: false,
        }
    }

    /// The manager after a create that failed. In fixed-name mode no
    /// container stays bound; in dynamic-name mode a container that the
    /// engine has created stays bound, so that a teardown can reach it.
    pub open spec fn aborted(self) -> ManagerView {
        ManagerView {
            phase: Phase::Failed,
            identity: if self.mode == Mode::FixedName {
                None
            } else {
                self.identity
            },
            ..self
        }
    }

    /// The same manager in another phase.
    pub open spec fn at(self, phase: Phase) -> ManagerView {
        ManagerView { phase, ..self }
    }

    /// The outcome that ends a create in failure.
    pub open spec fn give_up(self, error: TempMongoDockerErrorView) -> (
        ManagerView,
        CreateActionView,
    ) {
        (self.aborted(), CreateActionView::Finish(Err(error)))
    }

    /// One step of a create: the manager after `event`, and what it asks
    /// for next.
    ///
    /// Fixed-name mode lists the containers first. Where one goes by the
    /// fixed name already, nothing is created; else the container is
    /// created under that name on the database port, and a name conflict
    /// counts as success after a short wait, since it shows that another
    /// caller has just created it. Dynamic-name mode pulls the image to the
    /// end of the stream, takes a free port, and creates and starts a
    /// container that the engine names. Both then connect the database
    /// client to the published port. An event that answers no pending
    /// request changes nothing and ends the conversation with
    /// `OutOfSequence`.
    pub open spec fn create_step(self, event: CreateEventView) -> (ManagerView, CreateActionView) {
        match (self.phase, event) {
            (Phase::Uninitialized, CreateEventView::Begin) => match self.mode {
                Mode::FixedName => (self.at(Phase::Listing), CreateActionView::ListContainers),
                Mode::DynamicName => (self.at(Phase::Pulling), CreateActionView::PullImage(IMAGE@)),
            },
            (Phase::Listing, CreateEventView::Listed(Ok(containers))) => {
                let bound = ManagerView { port: Some(DATABASE_PORT), ..self };
                if any_carries_name(containers, FIXED_NAME@) {
                    (
                        bound.at(Phase::Connecting),
                        CreateActionView::ConnectDatabase(connection_uri_text(DATABASE_PORT)),
                    )
                } else {
                    (
                        bound.at(Phase::Creating),
                        CreateActionView::CreateContainer(
                            container_config_for(FIXED_NAME@, DATABASE_PORT),
                        ),
                    )
                }
            },
            (Phase::Listing, CreateEventView::Listed(Err(fault))) => self.give_up(
                TempMongoDockerErrorView::BollardConnectionError(fault),
            ),
            (Phase::Pulling, CreateEventView::Pulled(Some(Ok(_)))) => (
                self,
                CreateActionView::NextPullItem,
            ),
            (Phase::Pulling, CreateEventView::Pulled(Some(Err(text)))) => self.give_up(
                TempMongoDockerErrorView::DockerConnectionError(text),
            ),
            (Phase::Pulling, CreateEventView::Pulled(None)) => (
                self.at(Phase::Allocating),
                CreateActionView::ProbePort,
            ),
            (Phase::Allocating, CreateEventView::Probed(probe)) => {
                let (ports, allocation) = self.ports.generate(probe);
                let probed = ManagerView { ports, ..self };
                match allocation {
                    Allocation::Selected(port) => (
                        ManagerView { port: Some(port), ..probed }.at(Phase::Creating),
                        CreateActionView::CreateContainer(
                            container_config_for(Seq::empty(), port),
                        ),
                    ),
                    Allocation::Retry => (probed, CreateActionView::ProbePort),
                    Allocation::Exhausted => probed.give_up(
                        TempMongoDockerErrorView::PortAllocationError,
                    ),
                }
            },
            (Phase::Creating, CreateEventView::Created(Ok(id))) => match self.mode {
                Mode::FixedName => (
                    self.at(Phase::Starting),
                    CreateActionView::StartContainer(FIXED_NAME@),
                ),
                Mode::DynamicName => (
                    ManagerView { identity: Some(id), ..self }.at(Phase::Starting),
                    CreateActionView::StartContainer(id),
                ),
            },
            (Phase::Creating, CreateEventView::Created(Err(fault))) => {
                if self.mode == Mode::FixedName && fault.is_conflict() {
                    (self.at(Phase::Settling), CreateActionView::Sleep(CONFLICT_BACKOFF_MS))
                } else {
                    self.give_up(TempMongoDockerErrorView::ContainerCreationError(fault.message))
                }
            },
            (Phase::Starting, CreateEventView::Started(Ok(_))) => (
                self.at(Phase::Settling),
                CreateActionView::Sleep(BOOT_DELAY_MS),
            ),
            (Phase::Starting, CreateEventView::Started(Err(fault))) => self.give_up(
                TempMongoDockerErrorView::ContainerCreationError(fault.message),
            ),
            (Phase::Settling, CreateEventView::Slept) => match self.port {
                Some(port) => (
                    self.at(Phase::Connecting),
                    CreateActionView::ConnectDatabase(connection_uri_text(port)),
                ),
                None => self.give_up(TempMongoDockerErrorView::PortAllocationError),
            },
            (Phase::Connecting, CreateEventView::Connected(Ok(_))) => (
                ManagerView {
                    phase: Phase::Active,
                    identity: if self.mode == Mode::FixedName {
                        Some(FIXED_NAME@)
                    } else {
                        self.identity
                    },
                    connected: true,
                    ..self
                },
                CreateActionView::Finish(Ok(())),
            ),
            (Phase::Connecting, CreateEventView::Connected(Err(text))) => self.give_up(
                TempMongoDockerErrorView::MongoConnectionError(text),
            ),
            _ => (self, CreateActionView::Finish(Err(TempMongoDockerErrorView::OutOfSequence))),
        }
    }

    /// The phase in which a teardown waits for the container to stop.
    pub open spec fn stopping(remove: bool) -> Phase {
        if remove {
            Phase::StoppingForRemoval
        } else {
            Phase::Stopping
        }
    }

    /// One step of a teardown that removes the container (`remove`) or keeps
    /// it: the manager after `event`, and what it asks for next.
    ///
    /// A teardown can begin in any phase, on the one condition that a
    /// container is bound; without one it ends at once and nothing is asked
    /// of the engine. The container is stopped first, and removed only once
    /// the engine has stopped it. The binding outlasts the teardown, so a
    /// second teardown asks the engine again and gets the engine's answer.
    pub open spec fn teardown_step(self, event: TeardownEventView, remove: bool) -> (
        ManagerView,
        TeardownActionView,
    ) {
        match event {
            TeardownEventView::Begin => match self.identity {
                Some(id) => (
                    self.at(Self::stopping(remove)),
                    TeardownActionView::StopContainer(id),
                ),
                None => (
                    self,
                    TeardownActionView::Finish(Err(TempMongoDockerErrorView::ContainerNameNotSet)),
                ),
            },
            TeardownEventView::Stopped(outcome) => {
                if self.phase != Self::stopping(remove) {
                    (
                        self,
                        TeardownActionView::Finish(Err(TempMongoDockerErrorView::OutOfSequence)),
                    )
                } else {
                    match outcome {
                        Err(fault) => (
                            self.at(Phase::Failed),
                            TeardownActionView::Finish(
                                Err(TempMongoDockerErrorView::BollardConnectionError(fault)),
                            ),
                        ),
                        Ok(_) => if !remove {
                            (self.at(Phase::TornDown), TeardownActionView::Finish(Ok(())))
                        } else {
                            match self.identity {
                                Some(id) => (
                                    self.at(Phase::Removing),
                                    TeardownActionView::RemoveContainer(id),
                                ),
                                None => (
                                    self.at(Phase::Failed),
                                    TeardownActionView::Finish(
                                        Err(TempMongoDockerErrorView::ContainerNameNotSet),
                                    ),
                                ),
                            }
                        },
                    }
                }
            },
            TeardownEventView::Removed(outcome) => {
                if !remove || self.phase != Phase::Removing {
                    (
                        self,
                        TeardownActionView::Finish(Err(TempMongoDockerErrorView::OutOfSequence)),
                    )
                } else {
                    match outcome {
                        Ok(_) => (self.at(Phase::TornDown), TeardownActionView::Finish(Ok(()))),
                        Err(fault) => (
                            self.at(Phase::Failed),
                            TeardownActionView::Finish(
                                Err(TempMongoDockerErrorView::BollardConnectionError(fault)),
                            ),
                        ),
                    }
                }
            },
        }
    }
}

impl Phase {
    /// The phases of a create in which nothing was asked of the engine
    /// that would make a container.
    pub open spec fn before_creation(self) -> bool {
        self is Uninitialized || self is Listing || self is Pulling || self is Allocating
    }

    /// The phases of a create that follow the choice of the port.
    pub open spec fn bringing_up(self) -> bool {
        self is Creating || self is Starting || self is Settling || self is Connecting
    }

    /// The phases of a teardown, its end included.
    pub open spec fn tearing_down(self) -> bool {
        self is Stopping || self is StoppingForRemoval || self is Removing || self is TornDown
    }
}

impl ManagerView {
    /// What holds of every manager, whatever events it was given: the
    /// phases and what is bound agree.
    ///
    /// A manager that has asked nothing yet has nothing bound. Only
    /// fixed-name mode lists containers, and only dynamic-name mode pulls
    /// and probes; it has made no probe before the pull is over, and while
    /// it probes, another probe is still allowed. A manager holds no client
    /// before its create is complete;
    /// an active manager holds one, and a manager that holds one has its
    /// container and its port bound. A teardown under way has a container to
    /// work on. Once the port is chosen it stays bound. Dynamic-name mode
    /// binds the container as soon as the engine has made it; fixed-name
    /// mode binds nothing before the create is complete.
    pub open spec fn consistent(self) -> bool {
        &&& self.ports.attempts <= MAX_ATTEMPTS
        &&& (self.phase is Uninitialized ==> self == Self::fresh(self.mode))
        &&& (self.phase is Listing ==> self.mode == Mode::FixedName)
        &&& (self.phase is Pulling || self.phase is Allocating ==> self.mode == Mode::DynamicName)
        &&& (self.phase is Pulling ==> self.ports == PortGeneratorView::fresh())
        &&& (self.phase is Allocating ==> self.ports.attempts < MAX_ATTEMPTS)
        &&& (self.phase.before_creation() || self.phase.bringing_up() ==> !self.connected)
        &&& (self.phase is Active ==> self.connected)
        &&& (self.connected ==> self.identity is Some && self.port is Some)
        &&& (self.phase.tearing_down() ==> self.identity is Some)
        &&& (self.phase.bringing_up() ==> self.port is Some)
        &&& (self.phase.before_creation() || self.phase is Creating ==> self.identity is None)
        &&& (self.phase.bringing_up() && self.mode == Mode::FixedName ==> self.identity is None)
        &&& (self.phase.bringing_up() && !(self.phase is Creating) && self.mode
            == Mode::DynamicName ==> self.identity is Some)
    }

    /// A manager as it is made is consistent.
    pub proof fn lemma_fresh_is_consistent(mode: Mode)
        ensures
            Self::fresh(mode).consistent(),
    {
    }

    /// No event of a create makes a consistent manager inconsistent.
    pub proof fn lemma_create_keeps_consistent(self, event: CreateEventView)
        requires
            self.consistent(),
        ensures
            self.create_step(event).0.consistent(),
    {
    }

    /// No event of a teardown makes a consistent manager inconsistent.
    pub proof fn lemma_teardown_keeps_consistent(self, event: TeardownEventView, remove: bool)
        requires
            self.consistent(),
        ensures
            self.teardown_step(event, remove).0.consistent(),
    {
    }

    /// A create that ends in success leaves the manager active, with its
    /// container, its port and its client bound; and it ends in success only
    /// when the database client has just been connected.
    pub proof fn lemma_create_success_binds(self, event: CreateEventView)
        requires
            self.consistent(),
            self.create_step(event).1 == CreateActionView::Finish(Ok(())),
        ensures
            self.phase is Connecting,
            event is Connected,
            event->Connected_0 is Ok,
            self.create_step(event).0.phase is Active,
            self.create_step(event).0.identity is Some,
            self.create_step(event).0.port == self.port,
            self.port is Some,
            self.create_step(event).0.connected,
            self.mode == Mode::FixedName ==> self.create_step(event).0.identity == Some(
                FIXED_NAME@,
            ),
            self.mode == Mode::DynamicName ==> self.create_step(event).0.identity == self.identity,
    {
    }

    /// A create that ends in failure leaves the manager failed. In
    /// fixed-name mode no container stays bound; in dynamic-name mode the
    /// container that the engine made, if it made one, stays bound. An event
    /// out of sequence changes nothing.
    pub proof fn lemma_create_failure_aborts(self, event: CreateEventView)
        requires
            self.create_step(event).1 matches CreateActionView::Finish(Err(error)),
        ensures
            self.create_step(event).1 == CreateActionView::Finish(
                Err(TempMongoDockerErrorView::OutOfSequence),
            ) ==> self.create_step(event).0 == self,
            self.create_step(event).1 != CreateActionView::Finish(
                Err(TempMongoDockerErrorView::OutOfSequence),
            ) ==> {
                &&& self.create_step(event).0.phase is Failed
                &&& self.create_step(event).0.connected == self.connected
                &&& self.mode == Mode::FixedName ==> self.create_step(event).0.identity is None
                &&& self.mode == Mode::DynamicName ==> self.create_step(event).0.identity
                    == self.identity
            },
    {
    }

    /// A manager that is past its first request takes no second create: the
    /// answer to `Begin` is `OutOfSequence`, and nothing changes.
    pub proof fn lemma_create_begins_once(self)
        requires
            !(self.phase is Uninitialized),
        ensures
            self.create_step(CreateEventView::Begin) == (
                self,
                CreateActionView::Finish(Err(TempMongoDockerErrorView::OutOfSequence)),
            ),
    {
    }

    /// The only tolerated failure of the engine: in fixed-name mode a name
    /// conflict on the create request is answered with a wait, after which
    /// the create goes on. Every other failure of that request ends the
    /// create, and so does a conflict in dynamic-name mode.
    pub proof fn lemma_conflict_is_tolerated(self, fault: EngineFaultView)
        requires
            self.phase is Creating,
        ensures
            self.mode == Mode::FixedName && fault.is_conflict() ==> self.create_step(
                CreateEventView::Created(Err(fault)),
            ) == (self.at(Phase::Settling), CreateActionView::Sleep(CONFLICT_BACKOFF_MS)),
            !(self.mode == Mode::FixedName && fault.is_conflict()) ==> self.create_step(
                CreateEventView::Created(Err(fault)),
            ) == self.give_up(TempMongoDockerErrorView::ContainerCreationError(fault.message)),
    {
    }

    /// Probing comes to an end: a probe that found a port ends it with the
    /// request to create the container on that port, and each probe that
    /// found none leaves one attempt less, until the last one ends the create
    /// with `PortAllocationError`.
    pub proof fn lemma_probing_ends(self, probe: Option<u16>)
        requires
            self.consistent(),
            self.phase is Allocating,
        ensures
            ({
                let (next, request) = self.create_step(CreateEventView::Probed(probe));
                let spent = self.ports.attempts + 1;
                &&& next.ports.attempts == spent
                &&& usable(probe) ==> {
                    &&& next.phase is Creating
                    &&& next.port == probe
                    &&& request == CreateActionView::CreateContainer(
                        container_config_for(Seq::empty(), probe->0),
                    )
                }
                &&& !usable(probe) && spent < MAX_ATTEMPTS ==> {
                    &&& next.phase is Allocating
                    &&& request == CreateActionView::ProbePort
                }
                &&& !usable(probe) && spent == MAX_ATTEMPTS ==> {
                    &&& next.phase is Failed
                    &&& request == CreateActionView::Finish(
                        Err(TempMongoDockerErrorView::PortAllocationError),
                    )
                }
            }),
    {
    }

    /// The manager after a fresh one was given `events` in turn, all of
    /// them events of a create.
    pub open spec fn after_creates(mode: Mode, events: Seq<CreateEventView>) -> ManagerView
        decreases events.len(),
    {
        if events.len() == 0 {
            Self::fresh(mode)
        } else {
            Self::after_creates(mode, events.drop_last()).create_step(events.last()).0
        }
    }

    /// What holds of a manager that was given events of creates only: it is
    /// in no phase of a teardown, a fixed-name manager has its container
    /// bound exactly when it is active, and a dynamic-name manager has none
    /// bound before the engine was asked to start one.
    pub open spec fn only_created(self) -> bool {
        &&& self.consistent()
        &&& !self.phase.tearing_down()
        &&& (self.mode == Mode::FixedName ==> (self.identity is Some <==> self.phase is Active))
        &&& (self.identity is Some ==> self.phase is Active || self.phase is Failed
            || self.phase.bringing_up())
    }

    /// Whatever events of a create a fresh manager is given, `only_created`
    /// holds of it afterwards.
    pub proof fn lemma_after_creates(mode: Mode, events: Seq<CreateEventView>)
        ensures
            Self::after_creates(mode, events).only_created(),
            Self::after_creates(mode, events).mode == mode,
        decreases events.len(),
    {
        if events.len() > 0 {
            Self::lemma_after_creates(mode, events.drop_last());
        }
    }

    /// A teardown of either form on a manager without a bound container
    /// ends at once with `ContainerNameNotSet`: nothing is asked of the
    /// engine and the manager stays as it is.
    pub proof fn lemma_teardown_needs_container(self, remove: bool)
        requires
            self.identity is None,
        ensures
            self.teardown_step(TeardownEventView::Begin, remove) == (
                self,
                TeardownActionView::Finish(Err(TempMongoDockerErrorView::ContainerNameNotSet)),
            ),
    {
    }

    /// Take a fresh manager and give it any events of a create. As long as
    /// its create is not complete (fixed-name mode), or the engine has not
    /// yet made its container (dynamic-name mode), a teardown of either form
    /// ends at once with `ContainerNameNotSet`: nothing is asked of the
    /// engine and the manager stays as it is.
    pub proof fn lemma_teardown_before_create(
        mode: Mode,
        events: Seq<CreateEventView>,
        remove: bool,
    )
        requires
            ({
                let manager = Self::after_creates(mode, events);
                ||| mode == Mode::FixedName && !(manager.phase is Active)
                ||| manager.phase.before_creation()
                ||| manager.phase is Creating
            }),
        ensures
            ({
                let manager = Self::after_creates(mode, events);
                manager.teardown_step(TeardownEventView::Begin, remove) == (
                    manager,
                    TeardownActionView::Finish(
                        Err(TempMongoDockerErrorView::ContainerNameNotSet),
                    ),
                )
            }),
    {
        Self::lemma_after_creates(mode, events);
    }

    /// With a container bound, a teardown can begin in every phase: it asks
    /// for the container to be stopped. Under a consistent manager the
    /// removing form then asks for the removal as soon as the engine has
    /// stopped the container, and the keeping form never asks for one.
    pub proof fn lemma_teardown_order(self, remove: bool)
        requires
            self.consistent(),
            self.identity is Some,
        ensures
            self.teardown_step(TeardownEventView::Begin, remove) == (
                self.at(Self::stopping(remove)),
                TeardownActionView::StopContainer(self.identity->0),
            ),
            self.at(Self::stopping(true)).teardown_step(TeardownEventView::Stopped(Ok(())), true)
                == (
                self.at(Phase::Removing),
                TeardownActionView::RemoveContainer(self.identity->0),
            ),
            self.at(Self::stopping(false)).teardown_step(
                TeardownEventView::Stopped(Ok(())),
                false,
            ) == (self.at(Phase::TornDown), TeardownActionView::Finish(Ok(()))),
            forall|event: TeardownEventView|
                !(#[trigger] self.teardown_step(event, false).1 is RemoveContainer),
            forall|fault: EngineFaultView|
                #[trigger] self.at(Self::stopping(remove)).teardown_step(
                    TeardownEventView::Stopped(Err(fault)),
                    remove,
                ) == (
                    self.at(Phase::Failed),
                    TeardownActionView::Finish(
                        Err(TempMongoDockerErrorView::BollardConnectionError(fault)),
                    ),
                ),
    {
    }
}

} // verus!
