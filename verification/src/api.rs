//! The submission interface, free of any transport.
pub mod http;
