//! Post and tag consistency engine: permission checks, slug derivation,
//! list query construction and the store conversations that keep posts and
//! their tag associations atomic.

pub mod auth;
pub mod ids;
pub mod slug;
pub mod model;
pub mod query;
pub mod tags;
pub mod insert;
pub mod patch;
pub mod delete;
pub mod reads;
pub mod config;
pub mod api;
pub mod entity_attrs;
pub mod setup;
