//! Session bridge between device endpoints and a control bus: the registry of
//! live sessions, the handshake, the relay classification, the passive poller
//! and the router, as verified decision logic.

pub mod communication;
pub mod integration;
pub mod state;
