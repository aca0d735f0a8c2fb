//! The first Redis connector and listener of the monitor.
pub mod connector;
pub mod listener;
