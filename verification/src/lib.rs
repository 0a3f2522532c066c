//! Client-side building blocks for a cursored, paginated listing API.
//!
//! The heart of the crate is the pagination engine in `cursor`: it walks a
//! remote listing endpoint page by page, flattens each fetched page into an
//! item-at-a-time sequence, and exposes manual paging controls beside the
//! automatic walk.  The network transport itself is a collaborator outside
//! this crate: the engine describes each fetch as a request value and
//! consumes the outcome that the caller hands back.

pub mod auth;
pub mod common;
pub mod cursor;
pub mod error;
pub mod links;
pub mod list;
pub mod tweet;
pub mod user;
