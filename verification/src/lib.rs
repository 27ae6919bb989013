//! Sliding-sync core of a Matrix chat client.
//!
//! The crate holds the decisions that a client takes while it keeps a list of
//! rooms and their timelines in step with a homeserver: what to do with a room
//! that has an update, which requests a background worker can serve, how a
//! login proceeds, how a mirrored timeline follows the batches of changes that
//! a subscription delivers. Network access, tasks and the sending of messages
//! are driven from outside: each step takes plain values, changes the state that
//! it is handed and returns what is to be done next.

pub mod avatar;
pub mod channel;
pub mod laws;
pub mod login;
pub mod main_loop;
pub mod monitor;
pub mod registry;
pub mod room_update;
pub mod rooms_list;
pub mod timeline;
pub mod worker;
