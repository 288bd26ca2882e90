//! Rows of the database tables the endpoints read and write.

use vstd::prelude::*;

verus! {

/// A row of the `user` table.
#[derive(Debug)]
pub struct UserModel {
    pub id: u128,
    pub email: String,
    /// The password hash, in PHC string format.
    pub password: String,
    pub first_name: String,
    pub last_name: String,
    pub affix: Option<String>,
    pub display_name: String,
}

/// A row of the `calendar` table.
#[derive(Debug)]
pub struct CalendarModel {
    pub id: u128,
    pub owner: u128,
    pub title: String,
    pub colour: String,
    pub c_tag: u128,
}

/// A row of the `instance_setting` table.
#[derive(Debug)]
pub struct InstanceSettingModel {
    pub key: String,
    pub value: String,
}

} // verus!
