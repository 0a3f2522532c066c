//! Addresses of the second-generation API endpoints.

pub mod search;
