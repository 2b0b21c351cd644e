//! Verified core of a news-site content backend: accounts and session
//! tokens, role- and ownership-based access decisions, the first-account
//! rule, slugs, and the all-or-nothing replacement of an article's tags.

pub mod error;
pub mod handlers;
pub mod ids;
pub mod models;
pub mod policy;
pub mod slug;
pub mod utils;
