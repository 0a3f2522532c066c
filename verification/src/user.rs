//! The user record that populates a page of account listings.
//!
//! Only the fields the pagination machinery's callers address are modelled
//! here; the transport collaborator fills them in when it decodes a page.

use vstd::prelude::*;

verus! {

/// One account as the listing endpoints report it.
pub struct TwitterUser {
    /// Numeric id of the account.
    pub id: u64,
    /// The account's handle.
    pub screen_name: String,
    /// The account's display name.
    pub name: String,
}

} // verus!
