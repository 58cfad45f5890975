//! Lifecycle management for a disposable MongoDB server that runs in a
//! container and serves as a test fixture.
//!
//! The crate holds the decisions of the lifecycle: which request goes to the
//! container engine next, how a failure is classified, which endpoint a
//! client connects to. The requests themselves are awaited by the caller,
//! who hands every answer back as an event.
//!
//! - [`docker`] has the manager, [`TempMongoDocker`], with its events and
//!   requests.
//! - [`lifecycle`] says what the manager does, as a state machine over
//!   mathematical values, and what holds of every manager.
//! - [`engine`] has what goes to the container engine and what is read of
//!   its answers; [`port`] chooses the host port; [`endpoint`] builds the
//!   connection string; [`text`] writes numbers in decimal.
//! - [`error`] has the failures.
//! - [`model`] and [`world`] say what the managers bring about at an engine
//!   that keeps names unique: one container of the fixed name for all
//!   fixed-name managers, a container and a port of its own for each
//!   dynamic-name manager.

pub mod docker;
pub mod endpoint;
pub mod engine;
pub mod error;
pub mod lifecycle;
pub mod model;
pub mod port;
pub mod text;
pub mod world;

pub use crate::docker::TempMongoDocker;
pub use crate::error::{ErrorInner, TempMongoDockerError, TempMongoError};
pub use crate::lifecycle::{Mode, Phase};
