//! What the service asks the database for each request, and what it makes
//! of the answers.

pub mod challenge;
pub mod ideas;
pub mod users;
pub mod tags;
pub mod votes;
