//! Endpoints that concern one room.

pub mod get_event_by_timestamp;
