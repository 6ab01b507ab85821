//! A concurrency-safe lifecycle wrapper around a single in-process daemon.
//!
//! The wrapper stores at most one live session in a [`slot::HandleSlot`],
//! drives it through the irreversible lifecycle of [`lifecycle::LifeState`],
//! and forwards typed commands to the daemon-control capability while
//! translating every failure into the [`error::DaemonError`] taxonomy.

pub mod backend;
pub mod daemon;
pub mod error;
pub mod liana_session;
pub mod lifecycle;
pub mod slot;

pub use backend::DaemonBackend;
pub use daemon::EmbeddedDaemon;
pub use error::DaemonError;
pub use liana_session::LianaSession;
pub use lifecycle::LifeState;
pub use slot::HandleSlot;
