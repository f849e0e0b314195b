//! The handlers that pages answer messages with.

pub mod echo;
