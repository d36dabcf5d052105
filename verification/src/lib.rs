//! A greeter exposed to a host runtime.
//!
//! The library has one operation: building the greeting
//! `"Hello from Rust, {subject}!"` for a caller-supplied subject. Around it
//! stands a model of the boundary through which a host runtime reaches the
//! operation: an adapter that checks arity and argument type before
//! delegating, and a registry that maps a two-part name to the operation.

pub mod binding;
pub mod greeting;
