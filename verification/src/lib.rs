//! Core logic of the Zephyr CalDAV server: iCalendar serialization, WebDAV
//! multistatus documents, request-header decisions and credential handling.

pub mod text;
pub mod icalendar;
pub mod time;
pub mod uid;
pub mod ical_object;
pub mod serialization;
pub mod http;
pub mod logic;
pub mod util;
pub mod webdav;
pub mod entity;
pub mod caldav;
pub mod controller;
pub mod endpoints;
pub mod models;
