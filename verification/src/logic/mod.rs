pub mod chat;
pub mod feed;
pub mod posting;
pub mod resource;
pub mod user;
