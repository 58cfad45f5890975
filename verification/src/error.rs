//! Failures of the container lifecycle, as plain values.

use vstd::prelude::*;

verus! {

/// Status by which the engine reports that a container name is already taken.
pub const STATUS_CONFLICT: u16 = 409;

/// What the manager reads of a failure reported by the container engine.
#[derive(Debug)]
pub struct EngineFault {
    /// Status code of the engine's response, where the engine responded.
    pub status: Option<u16>,
    /// The failure in words.
    pub message: String,
}

/// Mathematical value of an [`EngineFault`].
pub struct EngineFaultView {
    pub status: Option<u16>,
    pub message: Seq<char>,
}

impl EngineFaultView {
    /// The engine refused a name because a container already carries it.
    pub open spec fn is_conflict(self) -> bool {
        self.status == Some(STATUS_CONFLICT)
    }
}

impl View for EngineFault {
    type V = EngineFaultView;

    open spec fn view(&self) -> EngineFaultView {
        EngineFaultView { status: self.status, message: self.message@ }
    }
}

impl EngineFault {
    /// Whether the engine refused a name because a container already
    /// carries it.
    pub fn is_conflict(&self) -> (r: bool)
        ensures
            r == self@.is_conflict(),
    {
        match self.status {
            Some(code) => code == STATUS_CONFLICT,
            None => false,
        }
    }
}

/// Why an operation of the manager did not succeed.
#[derive(Debug)]
pub enum TempMongoDockerError {
    /// The engine could not be reached, or it failed a request that is no
    /// part of creating a container: listing, stopping, removing.
    BollardConnectionError(EngineFault),
    /// The engine failed to create or to start the container, for another
    /// reason than a name conflict that is tolerated. Holds the failure in
    /// words.
    ContainerCreationError(String),
    /// The database client could not be connected. Holds the failure in
    /// words.
    MongoConnectionError(String),
    /// The image could not be pulled. Holds the failure in words.
    DockerConnectionError(String),
    /// A teardown was asked for while no container is bound to the manager.
    ContainerNameNotSet,
    /// No probe found a free port within the attempts allowed.
    PortAllocationError,
    /// The call does not fit the state of the manager: a second create, or
    /// an answer to a request that is not pending.
    OutOfSequence,
}

/// Mathematical value of a [`TempMongoDockerError`].
pub enum TempMongoDockerErrorView {
    BollardConnectionError(EngineFaultView),
    ContainerCreationError(Seq<char>),
    MongoConnectionError(Seq<char>),
    DockerConnectionError(Seq<char>),
    ContainerNameNotSet,
    PortAllocationError,
    OutOfSequence,
}

/// The kinds that failures fall into.
#[derive(Clone, Copy, Debug, PartialEq, Eq, Structural)]
pub enum ErrorKind {
    /// The engine or the database could not be reached.
    Connection,
    /// The container could not be brought up.
    Creation,
    /// A teardown without a bound container.
    IdentityNotSet,
    /// No free port was found.
    PortAllocation,
    /// A call out of sequence.
    Sequence,
}

impl TempMongoDockerErrorView {
    /// The kind of the failure.
    pub open spec fn kind(self) -> ErrorKind {
        match self {
            TempMongoDockerErrorView::BollardConnectionError(_) => ErrorKind::Connection,
            TempMongoDockerErrorView::MongoConnectionError(_) => ErrorKind::Connection,
            TempMongoDockerErrorView::ContainerCreationError(_) => ErrorKind::Creation,
            TempMongoDockerErrorView::DockerConnectionError(_) => ErrorKind::Creation,
            TempMongoDockerErrorView::ContainerNameNotSet => ErrorKind::IdentityNotSet,
            TempMongoDockerErrorView::PortAllocationError => ErrorKind::PortAllocation,
            TempMongoDockerErrorView::OutOfSequence => ErrorKind::Sequence,
        }
    }
}

impl View for TempMongoDockerError {
    type V = TempMongoDockerErrorView;

    open spec fn view(&self) -> TempMongoDockerErrorView {
        match self {
            TempMongoDockerError::BollardConnectionError(fault) => {
                TempMongoDockerErrorView::BollardConnectionError(fault@)
            },
            TempMongoDockerError::ContainerCreationError(text) => {
                TempMongoDockerErrorView::ContainerCreationError(text@)
            },
            TempMongoDockerError::MongoConnectionError(text) => {
                TempMongoDockerErrorView::MongoConnectionError(text@)
            },
            TempMongoDockerError::DockerConnectionError(text) => {
                TempMongoDockerErrorView::DockerConnectionError(text@)
            },
            TempMongoDockerError::ContainerNameNotSet => {
                TempMongoDockerErrorView::ContainerNameNotSet
            },
            TempMongoDockerError::PortAllocationError => {
                TempMongoDockerErrorView::PortAllocationError
            },
            TempMongoDockerError::OutOfSequence => TempMongoDockerErrorView::OutOfSequence,
        }
    }
}

impl TempMongoDockerError {
    /// The kind of the failure.
    pub fn kind(&self) -> (k: ErrorKind)
        ensures
            k == self@.kind(),
    {
        match self {
            TempMongoDockerError::BollardConnectionError(_) => ErrorKind::Connection,
            TempMongoDockerError::MongoConnectionError(_) => ErrorKind::Connection,
            TempMongoDockerError::ContainerCreationError(_) => ErrorKind::Creation,
            TempMongoDockerError::DockerConnectionError(_) => ErrorKind::Creation,
            TempMongoDockerError::ContainerNameNotSet => ErrorKind::IdentityNotSet,
            TempMongoDockerError::PortAllocationError => ErrorKind::PortAllocation,
            TempMongoDockerError::OutOfSequence => ErrorKind::Sequence,
        }
    }
}

/// Why a database server that runs as a local process could not be set up
/// or cleaned up. Paths and the failures of the system are held in words.
#[derive(Debug)]
pub enum ErrorInner {
    /// Failed to create the temporary directory.
    MakeTempDir(String),
    /// Failed to create the database directory, given first.
    MakeDbDir(String, String),
    /// Failed to spawn the server, whose command is given first.
    SpawnServer(String, String),
    /// Failed to kill the server.
    KillServer(String),
    /// Failed to clean up the temporary directory, given first.
    CleanDir(String, String),
    /// Failed to connect to the server at the address given first.
    Connect(String, String),
}

/// Mathematical value of an [`ErrorInner`].
pub enum ErrorInnerView {
    MakeTempDir(Seq<char>),
    MakeDbDir(Seq<char>, Seq<char>),
    SpawnServer(Seq<char>, Seq<char>),
    KillServer(Seq<char>),
    CleanDir(Seq<char>, Seq<char>),
    Connect(Seq<char>, Seq<char>),
}

impl ErrorInnerView {
    /// The failure in one line: what was attempted, on what, and why it
    /// failed.
    pub open spec fn message(self) -> Seq<char> {
        match self {
            ErrorInnerView::MakeTempDir(cause) => "Failed to create temporary directory: "@
                + cause,
            ErrorInnerView::MakeDbDir(path, cause) => "Failed to create data directory "@ + path
                + ": "@ + cause,
            ErrorInnerView::SpawnServer(name, cause) => "Failed to run server command: "@ + name
                + ": "@ + cause,
            ErrorInnerView::KillServer(cause) => "Failed to terminate spanwed server: "@ + cause,
            ErrorInnerView::CleanDir(path, cause) => "Failed to clean up temporary state directory "@
                + path + ": "@ + cause,
            ErrorInnerView::Connect(address, cause) => "Failed to connect to server at "@ + address
                + ": "@ + cause,
        }
    }
}

impl View for ErrorInner {
    type V = ErrorInnerView;

    open spec fn view(&self) -> ErrorInnerView {
        match self {
            ErrorInner::MakeTempDir(cause) => ErrorInnerView::MakeTempDir(cause@),
            ErrorInner::MakeDbDir(path, cause) => ErrorInnerView::MakeDbDir(path@, cause@),
            ErrorInner::SpawnServer(name, cause) => ErrorInnerView::SpawnServer(name@, cause@),
            ErrorInner::KillServer(cause) => ErrorInnerView::KillServer(cause@),
            ErrorInner::CleanDir(path, cause) => ErrorInnerView::CleanDir(path@, cause@),
            ErrorInner::Connect(address, cause) => ErrorInnerView::Connect(address@, cause@),
        }
    }
}

/// `head`, then `subject`, then a colon and a blank, then `cause`.
fn describe(head: &str, subject: &str, cause: &str) -> (text: String)
    ensures
        text@ == head@ + subject@ + ": "@ + cause@,
{
    let mut text = String::from_str(head);
    text.append(subject);
    text.append(": ");
    text.append(cause);
    text
}

impl ErrorInner {
    /// The failure in one line.
    pub fn message(&self) -> (text: String)
        ensures
            text@ == self@.message(),
    {
        match self {
            ErrorInner::MakeTempDir(cause) => String::from_str(
                "Failed to create temporary directory: ",
            ).concat(cause.as_str()),
            ErrorInner::MakeDbDir(path, cause) => describe(
                "Failed to create data directory ",
                path.as_str(),
                cause.as_str(),
            ),
            ErrorInner::SpawnServer(name, cause) => describe(
                "Failed to run server command: ",
                name.as_str(),
                cause.as_str(),
            ),
            ErrorInner::KillServer(cause) => String::from_str(
                "Failed to terminate spanwed server: ",
            ).concat(cause.as_str()),
            ErrorInner::CleanDir(path, cause) => describe(
                "Failed to clean up temporary state directory ",
                path.as_str(),
                cause.as_str(),
            ),
            ErrorInner::Connect(address, cause) => describe(
                "Failed to connect to server at ",
                address.as_str(),
                cause.as_str(),
            ),
        }
    }
}

/// An error that can occur when creating or cleaning a database instance
/// that runs as a local process.
#[derive(Debug)]
pub struct TempMongoError {
    /// The actual error.
    inner: ErrorInner,
}

impl View for TempMongoError {
    type V = ErrorInnerView;

    closed spec fn view(&self) -> ErrorInnerView {
        self.inner@
    }
}

impl TempMongoError {
    /// The failure in one line.
    pub fn message(&self) -> (text: String)
        ensures
            text@ == self@.message(),
    {
        self.inner.message()
    }

    /// The actual error.
    pub fn inner(&self) -> (inner: &ErrorInner)
        ensures
            inner@ == self@,
    {
        &self.inner
    }
}

impl From<ErrorInner> for TempMongoError {
    fn from(inner: ErrorInner) -> (error: TempMongoError)
    {
        TempMongoError { inner }
    }
}

impl vstd::std_specs::convert::FromSpecImpl<ErrorInner> for TempMongoError {
    open spec fn obeys_from_spec() -> bool {
        true
    }

    closed spec fn from_spec(inner: ErrorInner) -> TempMongoError {
        TempMongoError { inner }
    }
}

impl TempMongoError {
    /// An error made from its actual error holds that error.
    pub proof fn lemma_from_keeps(inner: ErrorInner)
        ensures
            <TempMongoError as vstd::std_specs::convert::FromSpec<ErrorInner>>::from_spec(inner)@ == inner@,
    {
    }
}

} // verus!
