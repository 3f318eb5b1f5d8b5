//! Aura: the domain model and the decision logic of the Aura social server,
//! with contracts proved by Verus. Networking, storage and rendering live in
//! the application around this library.

pub mod auth;
pub mod config;
pub mod console;
pub mod database;
pub mod email;
pub mod error;
pub mod types;
pub mod utils;
pub mod logic;
pub mod schema;
pub mod serde_duration;
pub mod testing;
