//! New calendars.

use vstd::prelude::*;

use crate::entity::CalendarModel;
use crate::uid::{is_random_uid, new_v4_uid};

verus! {

/// What a new calendar is made of.
pub struct CalendarData {
    pub title: String,
    pub colour: String,
}

/// A new calendar of the user `user_id`, with fresh random identifier and
/// collection tag.
pub fn create_calendar_for_user(user_id: u128, data: CalendarData) -> (c: CalendarModel)
    ensures
        c.owner == user_id,
        c.title == data.title,
        c.colour == data.colour,
        is_random_uid(c.id),
        is_random_uid(c.c_tag),
{
    CalendarModel {
        id: new_v4_uid(),
        title: data.title,
        colour: data.colour,
        owner: user_id,
        c_tag: new_v4_uid(),
    }
}

} // verus!
