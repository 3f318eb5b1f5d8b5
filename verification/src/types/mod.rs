pub mod chat;
pub mod common;
pub mod posting;
pub mod resource;
pub mod user;
