//! A Facebook Messenger bot: webhook verification, the routing of incoming
//! webhook messages to per-page handlers, and the requests sent back to the
//! Graph API, each stated and proved with Verus.

pub mod types;
pub mod trusted;
pub mod facebook_app;
pub mod games;
pub mod echo_handler;
pub mod receive;
pub mod verification;
pub mod hello;
