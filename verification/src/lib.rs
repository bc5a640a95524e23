//! Real-time change notification for synced profiles: the subscription
//! registry, the local fan-out, the bus channel naming and the client wire
//! protocol, each with a machine-checked contract.

pub mod auth;
pub mod bus;
pub mod channel;
pub mod error;
pub mod json;
pub mod laws;
pub mod message;
pub mod profile;
pub mod redirect;
pub mod short_uuid;
pub mod socket;
pub mod storage;
pub mod text;
