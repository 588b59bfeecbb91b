//! Session and lifecycle layer between a desktop shell and a peer-to-peer
//! networking engine, together with the gateway to the platform's secure
//! credential store.
//!
//! * [`session`] owns the one live network session: start, shutdown and
//!   access to the pairing sub-manager.
//! * [`bridge`] decides, event by event, what the task does that forwards
//!   the engine's events to the host's sink.
//! * [`config`] builds what a session is started with.
//! * [`bootstrap`] selects the credential backend of the platform, once.
//! * [`keychain`] reads, writes and deletes credentials.

pub mod bootstrap;
pub mod bridge;
pub mod config;
pub mod keychain;
pub mod session;

pub use bootstrap::{Backend, BootstrapAction, Platform, StoreBootstrap};
pub use bridge::{BridgeFault, BridgeStep};
pub use config::SessionConfig;
pub use keychain::{keychain_delete, keychain_get, keychain_set, BackendFault, FaultKind, KeychainError};
pub use session::{shutdown, start, NetManager, NetManagerState, SessionError, StartError, Started};
