//! Messages exchanged with the control bus and their JSON form.

pub mod codec;
pub mod json;
pub mod publish;
pub mod router;
pub mod types;
