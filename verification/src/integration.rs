//! What the bridge does with one device server.

pub mod house_of_iot;
