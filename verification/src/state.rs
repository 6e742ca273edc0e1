//! The shared store of live sessions.

pub mod channels;
pub mod registry_lemmas;
pub mod state_types;
