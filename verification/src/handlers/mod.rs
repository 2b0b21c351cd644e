//! The decisions behind each endpoint, on plain values.

pub mod article;
pub mod auth;
pub mod site_config;
pub mod tag;
pub mod upload;
