pub mod auth;
pub mod client;
pub mod dir;
pub mod setup;
pub mod user;
