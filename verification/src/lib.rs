use vstd::prelude::*;

pub mod bucket;
pub mod client;
pub mod config;
pub mod db_error;
pub mod dir;
pub mod error;
pub mod file;
pub mod fixtures;
pub mod flow;
pub mod listing;
pub mod migrate_ids;
pub mod migrate_turso;
pub mod pagination;
pub mod service;
pub mod shared_error;
pub mod sql;
pub mod status;
pub mod storage;
pub mod store;
pub mod text;
pub mod user;
pub mod token;
pub mod validate;
pub mod web;

verus! {
} // verus!
