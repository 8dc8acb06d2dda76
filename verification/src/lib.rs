//! Change notification for server listings: polling tasks compare freshly
//! fetched collections with cached snapshots and hand the differences to a
//! broadcaster that fans them out to connected subscribers. Beside them stand
//! the rules of the listing itself: which servers, categories and versions
//! are accepted, which tokens are valid, and how the status of a game server
//! is shown.

pub mod cache;
pub mod client_update;
pub mod controllers;
pub mod craftping;
pub mod diff;
pub mod error;
pub mod sender;
pub mod tasks;
pub mod text;
pub mod utils;
