//! IdeaDog is a social platform for sharing one's ideas with the world.
//!
//! This crate holds the logic of the service: the models, the AQL queries the
//! service sends to its ArangoDB database, the decisions taken on the
//! database's answers, the parsing of request parameters and the
//! authentication steps. The HTTP server and the database connection live in
//! the application crate around it.

pub mod aql;
pub mod auth;
pub mod connect;
pub mod error;
pub mod handler;
pub mod models;
pub mod params;
pub mod text;
