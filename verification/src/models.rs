//! Plain records of the users and settings tables.

use vstd::prelude::*;

verus! {

/// A user as stored in the `users` table.
pub struct User {
    pub id: u128,
    pub email: String,
    pub password: String,
    pub first_name: String,
    pub affix: Option<String>,
    pub last_name: String,
}

/// A key-value setting of the instance.
pub struct Setting {
    pub key: String,
    pub value: String,
}

} // verus!
