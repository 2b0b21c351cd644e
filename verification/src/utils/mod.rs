//! Session tokens and credential hashing.

pub mod jwt;
pub mod security;
