pub mod bucket;
pub mod dir;
pub mod client;
pub mod file;
pub mod migrate;
pub mod schema;
