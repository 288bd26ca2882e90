//! The CalDAV collection endpoints: the root collection, principals and
//! users, and the authentication in front of them.

pub mod caldav;
pub mod middleware;
pub mod principals;
pub mod response;
pub mod users;
pub mod xml;
