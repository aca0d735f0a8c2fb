//! Reading sensor messages for the monitored application.
pub mod application;
