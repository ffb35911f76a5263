//! Client-side runtime for the iwd wireless daemon's bus protocol: object
//! discovery and addressing, race-free property-change streams, and the
//! callback agents that the daemon calls back into.

pub mod agent;
pub mod catalog;
pub mod daemon;
pub mod error;
pub mod hidden_network;
pub mod interface;
pub mod modes;
pub mod network;
pub mod object_path;
pub mod property_stream;
pub mod registry;
pub mod station;
pub mod text;
pub mod value;
