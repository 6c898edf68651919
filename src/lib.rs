//! A small native window host: the decisions behind class registration,
//! window creation, message dispatch, the message loop and the per-window
//! payload, kept apart from the windowing calls themselves.

pub mod strings;
pub mod window;
pub mod procedure;
pub mod message_loop;
