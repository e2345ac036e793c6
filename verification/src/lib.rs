//! A bridge from a native process into an embedded managed runtime and back.
//!
//! The bridge starts the runtime with a companion library on its class path,
//! binds one native method to a callback class, invokes a static entry method
//! with two integers and an instance of that class, and turns the result that
//! the managed side hands to the native method into one line of output.

pub mod bridge;
pub mod callback;
pub mod failure;
pub mod interface;
pub mod jvm;
pub mod symbol;
