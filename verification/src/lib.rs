//! Looker: the decisions of a Smart Campus application monitor.
//!
//! The monitor keeps the state of one application, fetches its location
//! context from the registry service, feeds it with sensor messages, runs a
//! periodic timeout check and forwards the state back to the registry. The
//! waiting, the networking and the locking live in the program around this
//! library, and so do the updates of the application's state, which can stop
//! the program on values no precondition here can describe; the decisions
//! those loops take, and the reading of URLs, payloads and registry answers,
//! are made here.

pub mod utils;
pub mod foreign;
pub mod axe;
pub mod app;
pub mod retry;
pub mod settings;
pub mod eyes;
pub mod red;
