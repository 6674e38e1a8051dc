//! Client-side discovery and selection of MPRIS2 media players on a D-Bus
//! session.
//!
//! The crate answers three questions about the names registered on a bus:
//! which of them are media players, which one comes first, and which one is
//! playing right now. The answers are computed by verified functions on plain
//! values; the bus itself is reached through a small set of trusted calls
//! into `zbus`.
//!
//! - [`names`] tells the players among registered names, in registry order.
//! - [`playing`] selects the first player whose status reads as "Playing".
//! - [`handle`] makes a handle for one interface of the player at one name.
//! - [`blocking::discovery`] puts these together over a connection: `all`,
//!   `by_name`, `first` and `currently_playing`.
//! - [`shared`] holds the values that the protocol's interfaces exchange, and
//!   [`value`] what is read out of a value that came over the bus.
//! - [`bus`] lists what is taken for granted about `zbus`.
//! - [`error`] holds the kinds of failure, and [`text`] compares strings.

pub mod blocking;
pub mod bus;
pub mod error;
pub mod handle;
pub mod names;
pub mod playing;
pub mod shared;
pub mod text;
pub mod value;
