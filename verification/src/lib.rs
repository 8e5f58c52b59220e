//! A verified URL-shortening core: collision-resistant short-code
//! generation, a mapping store with a code-uniqueness invariant, and the
//! shorten/resolve orchestration with exact error semantics.

pub mod codes;
pub mod service;
pub mod store;
