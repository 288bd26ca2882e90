//! Account and calendar records, and the checks on credentials.

pub mod calendars;
pub mod jwt;
pub mod users;
