//! A blog backend's core.
//!
//! - `store` states what create, fetch, list, partial update and delete do
//!   to a table of articles, on records held in memory. A server whose table
//!   lies in a database does not call it; it is what that server's
//!   statements have to do.
//! - `reply` decides the answer of each operation from the outcome of the
//!   storage call, whichever store made it.
//! - `upload` is the upload pipeline as a state machine: it sanitizes the
//!   declared file name and lets only entries of the upload directory be
//!   opened; its caller does the reading and writing.

pub mod article;
pub mod listing;
pub mod paths;
pub mod reply;
pub mod sanitize;
pub mod store;
pub mod upload;
