//! The records that the service stores and the requests it answers.

pub mod challenge;
pub mod ideas;
pub mod tags;
pub mod users;
