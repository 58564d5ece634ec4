//! The state of a terminal to-do list: an ordered list of entries with a
//! selection cursor, two edit buffers, and the key-driven mode machine that
//! moves between browsing, editing and confirming a new entry.

pub mod status;
pub mod item;
pub mod list_state;
pub mod list_items;
pub mod app;
pub mod laws;
