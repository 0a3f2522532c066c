//! Endpoint addresses, grouped by API family.

pub mod statuses;
pub mod v2;
