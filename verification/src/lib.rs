//! The core of a terminal dashboard for configured jobs: a selection list with
//! a wrapping cursor, the events that drive it, and the transition function of
//! the render loop.

pub mod app;
pub mod cursor;
pub mod event;
pub mod job;
pub mod list;
