//! The records that the backend stores and exchanges.

pub mod article;
pub mod category;
pub mod site_config;
pub mod tag;
pub mod user;
