//! The records of the to-do store, as the handlers behind the gateway
//! write and show them.

use vstd::prelude::*;
use vstd::string::StringExecFns;

verus! {

/// A to-do item about to be stored for a user.
#[derive(Debug, PartialEq, Eq)]
pub struct NewItem {
    pub title: String,
    pub user_id: String,
    pub status: String,
}

impl NewItem {
    /// A new item of a user: it starts out pending.
    pub fn new(title: String, user_id: String) -> (item: NewItem)
        ensures
            item.title == title,
            item.user_id == user_id,
            item.status@ == "pending"@,
    {
        NewItem { title, user_id, status: String::from_str("pending") }
    }
}

/// The new state of a stored item, as a client sends it.
#[derive(Debug, PartialEq, Eq)]
pub struct UpdateItem {
    pub title: String,
    pub status: String,
}

/// What every to-do item shows: its title and its status.
#[derive(Debug, PartialEq, Eq)]
pub struct Base {
    pub title: String,
    pub status: String,
}

impl Base {
    /// An item with this title and status.
    pub fn new(input_title: &str, input_status: &str) -> (base: Base)
        ensures
            base.title@ == input_title@,
            base.status@ == input_status@,
    {
        Base { title: String::from_str(input_title), status: String::from_str(input_status) }
    }
}

} // verus!
