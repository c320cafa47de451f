//! A pluggable pseudorandom number generation facility built around a
//! minimal backend abstraction: the capability contract that any stateful
//! 64-bit generator algorithm implements, and one concrete algorithm, a
//! 64-bit xorshift generator, that fulfills it.
//!
//! The generators here are fast, statistically good sources; they are not
//! cryptographically secure.

pub mod backend;
