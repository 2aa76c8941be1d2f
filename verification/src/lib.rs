//! Verified core of a GitHub menu-bar helper: the URLs it asks for, how it
//! reads GitHub's replies, and which issues and pull requests it reports.

pub mod web_url;
pub mod error;
pub mod models;
pub mod client;
pub mod laws;
