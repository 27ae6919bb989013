//! What each operation does, stated of its arguments and its results alone.
//!
//! The laws speak of calls: of the arguments that an operation is called with,
//! of what it returns, and, where it changes its argument, of the argument
//! before and after. Several relate two calls or more.

pub mod avatars;
pub mod requests;
pub mod rooms;
pub mod session;
pub mod timelines;
