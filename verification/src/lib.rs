//! Synchronisation of a local repository checkout and sequencing of a
//! container-based development network, as pure decision logic.

pub mod lifecycle;
pub mod lifecycle_laws;
pub mod messages;
pub mod paint;
pub mod poller;
pub mod process;
pub mod relay;
pub mod sync;
pub mod sync_laws;
pub mod text;
