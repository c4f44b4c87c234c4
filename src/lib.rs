//! Addressing, fan-out and transfer decisions of a command-line client for a
//! game-server panel.
pub mod backup;
pub mod dispatch;
pub mod error;
pub mod location;
pub mod ops;
pub mod servers;
pub mod transfer;
