//! Verified core of an in-cluster Mojaloop participant simulator: the
//! registry of connected websocket clients and in-flight transfers, the
//! decisions taken on switch callbacks and responses, and the names and
//! selectors of the simulator's Kubernetes resources.

pub mod control_plane;
pub mod error;
pub mod participants;
pub mod pod;
pub mod rejection;
pub mod settlement;
pub mod transfers;
