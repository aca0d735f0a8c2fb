//! The watchers of the application: the periodic timeout check and the
//! listeners that bring sensor messages in.
pub mod clock;
pub mod redis;
