//! The exchanges with the registry service: fetching the location context
//! of the application and forwarding its state back.
pub mod contexter;
pub mod http;
pub mod requester;
pub mod urls;
