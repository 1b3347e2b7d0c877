//! Load generation against an issue tracker: payload synthesis, pagination and
//! retry decisions, and exact run statistics.
pub mod stats;
pub mod picker;
pub mod models;
pub mod text;
pub mod payload;
pub mod crawl;
pub mod retry;
pub mod auth;
pub mod config;
pub mod token;
pub mod project_key;
pub mod endpoints;
