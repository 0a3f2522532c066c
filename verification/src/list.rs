//! The list record that populates a page of list listings.
//!
//! Only the fields the pagination machinery's callers address are modelled
//! here; the transport collaborator fills them in when it decodes a page.

use vstd::prelude::*;

verus! {

/// One user-curated list as the listing endpoints report it.
pub struct List {
    /// Numeric id of the list.
    pub id: u64,
    /// The list's display name.
    pub name: String,
    /// The list's URL component.
    pub slug: String,
    /// How many accounts the list holds.
    pub member_count: u64,
    /// How many accounts follow the list.
    pub subscriber_count: u64,
}

} // verus!
