//! Strongly typed astronomical frame metadata and event-search bookkeeping.
pub mod ephem;
pub mod event;
pub mod frame;
pub mod time;
