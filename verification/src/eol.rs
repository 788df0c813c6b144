//! Resolvers that ship with the library.
pub mod identity;
