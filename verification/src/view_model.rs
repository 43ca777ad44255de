//! The client's view models: plain state the renderer draws from and the
//! controller mutates.

pub mod app;
pub mod input;
pub mod log;
pub mod messages;
pub mod user_list;
