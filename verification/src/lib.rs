//! Controller core of a terminal feed reader.
//!
//! The library owns the session logic: a scrollable selection cursor over a
//! list of rows ([`tracker::Tracker`]), a case-insensitive live search over
//! item titles ([`search`]), the application state machine that composes the
//! two ([`app::App`]), the key/event dispatch ([`events`]), and the
//! construction of feed items from parsed feed fields ([`sync`]).
//! Terminal I/O, storage, feed fetching and rendering live outside the
//! library and talk to it through plain values.

pub mod app;
pub mod events;
pub mod item;
pub mod order;
pub mod search;
pub mod sync;
pub mod tracker;
