//! The manager of one database container.
//!
//! Every operation is a conversation. The caller opens it with `Begin`,
//! carries out the request that comes back, and hands the outcome in as the
//! next event, until the manager answers `Finish`.

use crate::endpoint::{connection_uri, connection_uri_text};
use crate::engine::{
    any_carries_name_in, container_config, fault_of, ContainerConfig, ContainerSummary,
    DATABASE_PORT, FIXED_NAME, IMAGE,
};
use crate::error::{EngineFault, TempMongoDockerError, TempMongoDockerErrorView};
use crate::lifecycle::{
    CreateActionView, CreateEventView, ManagerView, Mode, Phase, TeardownActionView,
    TeardownEventView, BOOT_DELAY_MS, CONFLICT_BACKOFF_MS,
};
use crate::port::{Allocation, PortGenerator};
use vstd::prelude::*;

verus! {

/// The database client's handle. The manager keeps it for its caller and
/// reads nothing in it.
#[verifier::external_type_specification]
#[verifier::external_body]
pub struct ExClient(mongodb::Client);

/// What the caller tells the manager in the course of a create.
#[derive(Debug)]
pub enum CreateEvent {
    /// The create is asked for.
    Begin,
    /// The engine listed its containers, or failed to.
    Listed(Result<Vec<ContainerSummary>, EngineFault>),
    /// The pull stream gave its next item: progress, a failure in words, or
    /// nothing more.
    Pulled(Option<Result<(), String>>),
    /// A probe for a free port on the loopback address found this.
    Probed(Option<u16>),
    /// The engine created the container and returned its identifier, or
    /// failed to.
    Created(Result<String, EngineFault>),
    /// The engine started the container, or failed to.
    Started(Result<(), EngineFault>),
    /// The delay has passed.
    Slept,
    /// The database client is connected, or could not be, with the failure
    /// in words.
    Connected(Result<mongodb::Client, String>),
}

impl View for CreateEvent {
    type V = CreateEventView;

    open spec fn view(&self) -> CreateEventView {
        match self {
            CreateEvent::Begin => CreateEventView::Begin,
            CreateEvent::Listed(Ok(containers)) => CreateEventView::Listed(
                Ok(containers.deep_view()),
            ),
            CreateEvent::Listed(Err(fault)) => CreateEventView::Listed(Err(fault@)),
            CreateEvent::Pulled(Some(Ok(_))) => CreateEventView::Pulled(Some(Ok(()))),
            CreateEvent::Pulled(Some(Err(text))) => CreateEventView::Pulled(Some(Err(text@))),
            CreateEvent::Pulled(None) => CreateEventView::Pulled(None),
            CreateEvent::Probed(probe) => CreateEventView::Probed(*probe),
            CreateEvent::Created(Ok(id)) => CreateEventView::Created(Ok(id@)),
            CreateEvent::Created(Err(fault)) => CreateEventView::Created(Err(fault@)),
            CreateEvent::Started(Ok(_)) => CreateEventView::Started(Ok(())),
            CreateEvent::Started(Err(fault)) => CreateEventView::Started(Err(fault@)),
            CreateEvent::Slept => CreateEventView::Slept,
            CreateEvent::Connected(Ok(_)) => CreateEventView::Connected(Ok(())),
            CreateEvent::Connected(Err(text)) => CreateEventView::Connected(Err(text@)),
        }
    }
}

/// What the manager asks of the caller in the course of a create.
#[derive(Debug)]
pub enum CreateAction {
    /// List all containers, stopped ones too.
    ListContainers,
    /// Open the pull of this image and take the first item of its stream.
    PullImage(String),
    /// Take the next item of the pull stream.
    NextPullItem,
    /// Ask the system for a free port on the loopback address.
    ProbePort,
    /// Create a container.
    CreateContainer(ContainerConfig),
    /// Start the container that goes by this identifier or name.
    StartContainer(String),
    /// Wait for this many milliseconds.
    Sleep(u64),
    /// Connect a database client to this connection string.
    ConnectDatabase(String),
    /// The create is over, with this outcome.
    Finish(Result<(), TempMongoDockerError>),
}

impl View for CreateAction {
    type V = CreateActionView;

    open spec fn view(&self) -> CreateActionView {
        match self {
            CreateAction::ListContainers => CreateActionView::ListContainers,
            CreateAction::PullImage(image) => CreateActionView::PullImage(image@),
            CreateAction::NextPullItem => CreateActionView::NextPullItem,
            CreateAction::ProbePort => CreateActionView::ProbePort,
            CreateAction::CreateContainer(config) => CreateActionView::CreateContainer(config@),
            CreateAction::StartContainer(id) => CreateActionView::StartContainer(id@),
            CreateAction::Sleep(millis) => CreateActionView::Sleep(*millis),
            CreateAction::ConnectDatabase(uri) => CreateActionView::ConnectDatabase(uri@),
            CreateAction::Finish(Ok(_)) => CreateActionView::Finish(Ok(())),
            CreateAction::Finish(Err(error)) => CreateActionView::Finish(Err(error@)),
        }
    }
}

/// What the caller tells the manager in the course of a teardown.
#[derive(Debug)]
pub enum TeardownEvent {
    /// The teardown is asked for.
    Begin,
    /// The engine stopped the container, or failed to.
    Stopped(Result<(), EngineFault>),
    /// The engine removed the container, or failed to.
    Removed(Result<(), EngineFault>),
}

impl View for TeardownEvent {
    type V = TeardownEventView;

    open spec fn view(&self) -> TeardownEventView {
        match self {
            TeardownEvent::Begin => TeardownEventView::Begin,
            TeardownEvent::Stopped(Ok(_)) => TeardownEventView::Stopped(Ok(())),
            TeardownEvent::Stopped(Err(fault)) => TeardownEventView::Stopped(Err(fault@)),
            TeardownEvent::Removed(Ok(_)) => TeardownEventView::Removed(Ok(())),
            TeardownEvent::Removed(Err(fault)) => TeardownEventView::Removed(Err(fault@)),
        }
    }
}

/// What the manager asks of the caller in the course of a teardown.
#[derive(Debug)]
pub enum TeardownAction {
    /// Stop the container that goes by this identifier or name.
    StopContainer(String),
    /// Remove the container that goes by this identifier or name.
    RemoveContainer(String),
    /// The teardown is over, with this outcome.
    Finish(Result<(), TempMongoDockerError>),
}

impl View for TeardownAction {
    type V = TeardownActionView;

    open spec fn view(&self) -> TeardownActionView {
        match self {
            TeardownAction::StopContainer(id) => TeardownActionView::StopContainer(id@),
            TeardownAction::RemoveContainer(id) => TeardownActionView::RemoveContainer(id@),
            TeardownAction::Finish(Ok(_)) => TeardownActionView::Finish(Ok(())),
            TeardownAction::Finish(Err(error)) => TeardownActionView::Finish(Err(error@)),
        }
    }
}

/// Manages one database container: brings it up, hands out the client
/// connected to it, and tears it down.
pub struct TempMongoDocker {
    /// Handle through which the caller reaches the engine.
    docker_client: bollard::Docker,
    /// Client of the database in the container, once it is connected.
    mongo_client: Option<mongodb::Client>,
    /// The container bound to this manager.
    name_container: Option<String>,
    mode: Mode,
    phase: Phase,
    port: Option<u16>,
    ports: PortGenerator,
}

impl View for TempMongoDocker {
    type V = ManagerView;

    closed spec fn view(&self) -> ManagerView {
        ManagerView {
            mode: self.mode,
            phase: self.phase,
            identity: match self.name_container {
                Some(name) => Some(name@),
                None => None,
            },
            port: self.port,
            ports: self.ports@,
            connected: self.mongo_client is Some,
        }
    }
}

impl TempMongoDocker {
    /// The engine handle that the manager holds.
    pub closed spec fn engine(&self) -> bollard::Docker {
        self.docker_client
    }

    /// The database client that the manager holds.
    pub closed spec fn client(&self) -> Option<mongodb::Client> {
        self.mongo_client
    }

    /// The database client that the manager holds after `event` of a
    /// create: the one that the event brings, where a connect is pending,
    /// else the one held before.
    pub open spec fn client_after(&self, event: CreateEvent) -> Option<mongodb::Client> {
        if self@.phase == Phase::Connecting && event is Connected && event->Connected_0 is Ok {
            Some(event->Connected_0->Ok_0)
        } else {
            self.client()
        }
    }

    /// The manager's value says that it is connected exactly when it holds
    /// a database client.
    pub proof fn lemma_connected_holds_client(&self)
        ensures
            self@.connected == (self.client() is Some),
    {
    }

    /// Makes a manager for the local engine, in dynamic-name mode. No
    /// request goes to the engine yet. Fails where the engine client cannot
    /// be made; whether it can is for the engine client to say, and
    /// `from_connection` says what becomes of either answer.
    pub fn new() -> (made: Result<TempMongoDocker, TempMongoDockerError>)
        ensures
            made matches Ok(manager) ==> manager@ == ManagerView::fresh(Mode::DynamicName)
                && manager.client() is None,
            made matches Err(error) ==> error@ is BollardConnectionError,
    {
        Self::from_connection(bollard::Docker::connect_with_socket_defaults())
    }

    /// Makes a manager from the outcome of making the engine client.
    ///
    /// A client that was made is held by a fresh manager in dynamic-name
    /// mode, which has no container bound and no database client. A failure
    /// comes back at once as `BollardConnectionError`, with the text that the
    /// engine client's error displays.
    pub fn from_connection(outcome: Result<bollard::Docker, bollard::errors::Error>) -> (made: Result<
        TempMongoDocker,
        TempMongoDockerError,
    >)
        ensures
            outcome matches Ok(docker) ==> {
                &&& made matches Ok(manager)
                &&& manager.engine() == docker
                &&& manager.client() is None
                &&& manager@ == ManagerView::fresh(Mode::DynamicName)
            },
            outcome matches Err(fault) ==> {
                &&& made matches Err(TempMongoDockerError::BollardConnectionError(found))
                &&& vstd::string::to_string_from_display_ensures::<bollard::errors::Error>(
                    &fault,
                    found.message,
                )
            },
    {
        match outcome {
            Ok(docker_client) => Ok(
                TempMongoDocker {
                    docker_client,
                    mongo_client: None,
                    name_container: None,
                    mode: Mode::DynamicName,
                    phase: Phase::Uninitialized,
                    port: None,
                    ports: PortGenerator::new(),
                },
            ),
            Err(fault) => Err(TempMongoDockerError::BollardConnectionError(fault_of(&fault))),
        }
    }

    /// Ends a create in failure.
    fn give_up(&mut self, error: TempMongoDockerError) -> (action: CreateAction)
        ensures
            final(self)@ == old(self)@.aborted(),
            action@ == CreateActionView::Finish(Err(error@)),
            final(self).engine() == old(self).engine(),
            final(self).client() == old(self).client(),
    {
        if self.mode == Mode::FixedName {
            self.name_container = None;
        }
        self.phase = Phase::Failed;
        CreateAction::Finish(Err(error))
    }

    /// Answers an event that fits no pending request.
    fn out_of_sequence() -> (action: CreateAction)
        ensures
            action@ == CreateActionView::Finish(Err(TempMongoDockerErrorView::OutOfSequence)),
    {
        CreateAction::Finish(Err(TempMongoDockerError::OutOfSequence))
    }

    /// Takes one item of the image pull. The pull is over only when the
    /// stream is: progress asks for the next item, a failure ends the
    /// create.
    fn setup_image(&mut self, event: CreateEvent) -> (action: CreateAction)
        requires
            event is Pulled,
        ensures
            final(self)@ == old(self)@.create_step(event@).0,
            action@ == old(self)@.create_step(event@).1,
            final(self).engine() == old(self).engine(),
            final(self).client() == old(self).client_after(event),
    {
        if self.phase != Phase::Pulling {
            return Self::out_of_sequence();
        }
        match event {
            CreateEvent::Pulled(Some(Ok(_))) => CreateAction::NextPullItem,
            CreateEvent::Pulled(Some(Err(text))) => self.give_up(
                TempMongoDockerError::DockerConnectionError(text),
            ),
            CreateEvent::Pulled(None) => {
                self.phase = Phase::Allocating;
                CreateAction::ProbePort
            },
            _ => Self::out_of_sequence(),
        }
    }

    /// Brings the container up: takes the engine's answer to the create
    /// request, asks for the start, and takes the answer to that.
    fn start_container(&mut self, event: CreateEvent) -> (action: CreateAction)
        requires
            event is Created || event is Started,
        ensures
            final(self)@ == old(self)@.create_step(event@).0,
            action@ == old(self)@.create_step(event@).1,
            final(self).engine() == old(self).engine(),
            final(self).client() == old(self).client_after(event),
    {
        match event {
            CreateEvent::Created(outcome) => {
                if self.phase != Phase::Creating {
                    return Self::out_of_sequence();
                }
                match outcome {
                    Ok(id) => {
                        self.phase = Phase::Starting;
                        match self.mode {
                            Mode::FixedName => CreateAction::StartContainer(
                                String::from_str(FIXED_NAME),
                            ),
                            Mode::DynamicName => {
                                self.name_container = Some(id.clone());
                                CreateAction::StartContainer(id)
                            },
                        }
                    },
                    Err(fault) => {
                        if self.mode == Mode::FixedName && fault.is_conflict() {
                            self.phase = Phase::Settling;
                            CreateAction::Sleep(CONFLICT_BACKOFF_MS)
                        } else {
                            self.give_up(TempMongoDockerError::ContainerCreationError(fault.message))
                        }
                    },
                }
            },
            CreateEvent::Started(outcome) => {
                if self.phase != Phase::Starting {
                    return Self::out_of_sequence();
                }
                match outcome {
                    Ok(_) => {
                        self.phase = Phase::Settling;
                        CreateAction::Sleep(BOOT_DELAY_MS)
                    },
                    Err(fault) => self.give_up(
                        TempMongoDockerError::ContainerCreationError(fault.message),
                    ),
                }
            },
            _ => Self::out_of_sequence(),
        }
    }

    /// Takes one event of a create and says what to do next.
    ///
    /// The caller opens with `Begin`, carries out each request that comes
    /// back and hands in its outcome, until the answer is `Finish`. On
    /// `Finish(Ok)` the manager is active: the container is bound and the
    /// database client is held.
    pub fn create(&mut self, event: CreateEvent) -> (action: CreateAction)
        ensures
            final(self)@ == old(self)@.create_step(event@).0,
            action@ == old(self)@.create_step(event@).1,
            final(self).engine() == old(self).engine(),
            final(self).client() == old(self).client_after(event),
            action@ == CreateActionView::Finish(Ok(())) ==> final(self)@.phase == Phase::Active
                && final(self).client() is Some,
    {
        match event {
            CreateEvent::Pulled(_) => self.setup_image(event),
            CreateEvent::Created(_) => self.start_container(event),
            CreateEvent::Started(_) => self.start_container(event),
            CreateEvent::Begin => {
                if self.phase != Phase::Uninitialized {
                    return Self::out_of_sequence();
                }
                match self.mode {
                    Mode::FixedName => {
                        self.phase = Phase::Listing;
                        CreateAction::ListContainers
                    },
                    Mode::DynamicName => {
                        self.phase = Phase::Pulling;
                        CreateAction::PullImage(String::from_str(IMAGE))
                    },
                }
            },
            CreateEvent::Listed(outcome) => {
                if self.phase != Phase::Listing {
                    return Self::out_of_sequence();
                }
                match outcome {
                    Ok(containers) => {
                        self.port = Some(DATABASE_PORT);
                        if any_carries_name_in(&containers, FIXED_NAME) {
                            self.phase = Phase::Connecting;
                            CreateAction::ConnectDatabase(connection_uri(DATABASE_PORT))
                        } else {
                            self.phase = Phase::Creating;
                            CreateAction::CreateContainer(
                                container_config(FIXED_NAME, DATABASE_PORT),
                            )
                        }
                    },
                    Err(fault) => self.give_up(
                        TempMongoDockerError::BollardConnectionError(fault),
                    ),
                }
            },
            CreateEvent::Probed(probe) => {
                if self.phase != Phase::Allocating {
                    return Self::out_of_sequence();
                }
                match self.ports.generate(probe) {
                    Allocation::Selected(port) => {
                        self.port = Some(port);
                        self.phase = Phase::Creating;
                        proof {
                            reveal_strlit("");
                            assert(""@ =~= Seq::<char>::empty());
                        }
                        CreateAction::CreateContainer(container_config("", port))
                    },
                    Allocation::Retry => CreateAction::ProbePort,
                    Allocation::Exhausted => self.give_up(
                        TempMongoDockerError::PortAllocationError,
                    ),
                }
            },
            CreateEvent::Slept => {
                if self.phase != Phase::Settling {
                    return Self::out_of_sequence();
                }
                match self.port {
                    Some(port) => {
                        self.phase = Phase::Connecting;
                        CreateAction::ConnectDatabase(connection_uri(port))
                    },
                    None => self.give_up(TempMongoDockerError::PortAllocationError),
                }
            },
            CreateEvent::Connected(outcome) => {
                if self.phase != Phase::Connecting {
                    return Self::out_of_sequence();
                }
                match outcome {
                    Ok(client) => {
                        self.mongo_client = Some(client);
                        if self.mode == Mode::FixedName {
                            self.name_container = Some(String::from_str(FIXED_NAME));
                        }
                        self.phase = Phase::Active;
                        CreateAction::Finish(Ok(()))
                    },
                    Err(text) => self.give_up(TempMongoDockerError::MongoConnectionError(text)),
                }
            },
        }
    }

    /// One step of a teardown, for both of its forms.
    fn teardown(&mut self, event: TeardownEvent, remove: bool) -> (action: TeardownAction)
        ensures
            final(self)@ == old(self)@.teardown_step(event@, remove).0,
            action@ == old(self)@.teardown_step(event@, remove).1,
            final(self).engine() == old(self).engine(),
            final(self).client() == old(self).client(),
    {
        let stopping = if remove {
            Phase::StoppingForRemoval
        } else {
            Phase::Stopping
        };
        match event {
            TeardownEvent::Begin => match &self.name_container {
                Some(name) => {
                    let id = name.clone();
                    self.phase = stopping;
                    TeardownAction::StopContainer(id)
                },
                None => TeardownAction::Finish(Err(TempMongoDockerError::ContainerNameNotSet)),
            },
            TeardownEvent::Stopped(outcome) => {
                if self.phase != stopping {
                    return TeardownAction::Finish(Err(TempMongoDockerError::OutOfSequence));
                }
                match outcome {
                    Err(fault) => {
                        self.phase = Phase::Failed;
                        TeardownAction::Finish(
                            Err(TempMongoDockerError::BollardConnectionError(fault)),
                        )
                    },
                    Ok(_) => {
                        if !remove {
                            self.phase = Phase::TornDown;
                            return TeardownAction::Finish(Ok(()));
                        }
                        match &self.name_container {
                            Some(name) => {
                                let id = name.clone();
                                self.phase = Phase::Removing;
                                TeardownAction::RemoveContainer(id)
                            },
                            None => {
                                self.phase = Phase::Failed;
                                TeardownAction::Finish(
                                    Err(TempMongoDockerError::ContainerNameNotSet),
                                )
                            },
                        }
                    },
                }
            },
            TeardownEvent::Removed(outcome) => {
                if !remove || self.phase != Phase::Removing {
                    return TeardownAction::Finish(Err(TempMongoDockerError::OutOfSequence));
                }
                match outcome {
                    Ok(_) => {
                        self.phase = Phase::TornDown;
                        TeardownAction::Finish(Ok(()))
                    },
                    Err(fault) => {
                        self.phase = Phase::Failed;
                        TeardownAction::Finish(
                            Err(TempMongoDockerError::BollardConnectionError(fault)),
                        )
                    },
                }
            },
        }
    }

    /// Takes one event of the teardown that stops the container and then
    /// removes it, and says what to do next.
    ///
    /// Without a bound container the answer to `Begin` is
    /// `Finish(Err(ContainerNameNotSet))`: nothing is asked of the engine
    /// and the manager stays as it is. A failed stop ends the teardown
    /// before any removal is asked for.
    pub fn kill_and_clean(&mut self, event: TeardownEvent) -> (action: TeardownAction)
        ensures
            final(self)@ == old(self)@.teardown_step(event@, true).0,
            action@ == old(self)@.teardown_step(event@, true).1,
            final(self).engine() == old(self).engine(),
            final(self).client() == old(self).client(),
            event is Begin && old(self)@.identity is None ==> final(self)@ == old(self)@ && action@
                == TeardownActionView::Finish(Err(TempMongoDockerErrorView::ContainerNameNotSet)),
    {
        self.teardown(event, true)
    }

    /// Takes one event of the teardown that stops the container and keeps
    /// it, with all that it holds, and says what to do next.
    ///
    /// Without a bound container the answer to `Begin` is
    /// `Finish(Err(ContainerNameNotSet))`: nothing is asked of the engine
    /// and the manager stays as it is. No removal is ever asked for.
    pub fn kill_not_clean(&mut self, event: TeardownEvent) -> (action: TeardownAction)
        ensures
            final(self)@ == old(self)@.teardown_step(event@, false).0,
            action@ == old(self)@.teardown_step(event@, false).1,
            final(self).engine() == old(self).engine(),
            final(self).client() == old(self).client(),
            event is Begin && old(self)@.identity is None ==> final(self)@ == old(self)@ && action@
                == TeardownActionView::Finish(Err(TempMongoDockerErrorView::ContainerNameNotSet)),
            !(action@ is RemoveContainer),
    {
        self.teardown(event, false)
    }

    /// Puts a manager that has asked nothing of the engine yet into `mode`.
    /// A manager that is past that point stays as it is.
    pub fn with_mode(self, mode: Mode) -> (manager: TempMongoDocker)
        ensures
            manager@ == (if self@.phase == Phase::Uninitialized {
                ManagerView { mode, ..self@ }
            } else {
                self@
            }),
            manager.engine() == self.engine(),
            manager.client() == self.client(),
    {
        if self.phase == Phase::Uninitialized {
            TempMongoDocker { mode, ..self }
        } else {
            self
        }
    }

    /// The handle through which requests reach the engine.
    pub fn docker_client(&self) -> (handle: &bollard::Docker)
        ensures
            *handle == self.engine(),
    {
        &self.docker_client
    }

    /// The database client, once a create has connected it.
    pub fn mongo_client(&self) -> (handle: Option<&mongodb::Client>)
        ensures
            handle is Some == self@.connected,
            handle matches Some(client) ==> self.client() == Some(*client),
    {
        self.mongo_client.as_ref()
    }

    /// The container bound to the manager: the identifier that the engine
    /// gave it, or the fixed name.
    pub fn container_name(&self) -> (name: Option<&String>)
        ensures
            name is Some == self@.identity is Some,
            name matches Some(text) ==> self@.identity == Some(text@),
    {
        self.name_container.as_ref()
    }

    /// The host port that the database is published on, once it is chosen.
    pub fn port(&self) -> (port: Option<u16>)
        ensures
            port == self@.port,
    {
        self.port
    }

    /// The connection string of the database, while the manager is active.
    pub fn uri(&self) -> (uri: Option<String>)
        ensures
            uri is Some == (self@.phase == Phase::Active && self@.port is Some),
            uri matches Some(text) ==> text@ == connection_uri_text(self@.port->0),
    {
        if self.phase != Phase::Active {
            return None;
        }
        match self.port {
            Some(port) => Some(connection_uri(port)),
            None => None,
        }
    }

    /// Where the manager stands in its life.
    pub fn phase(&self) -> (phase: Phase)
        ensures
            phase == self@.phase,
    {
        self.phase
    }

    /// How the manager's container is identified.
    pub fn mode(&self) -> (mode: Mode)
        ensures
            mode == self@.mode,
    {
        self.mode
    }
}

} // verus!