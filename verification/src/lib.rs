//! Publishes one post to several social networks and reports each network's outcome.
pub mod api;
pub mod config;
pub mod data;
pub mod text;

pub use api::API;
