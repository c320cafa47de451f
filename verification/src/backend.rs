//! The backend capability contract.
//!
//! A backend is a stateful 64-bit generator algorithm: its whole state is a
//! single 64-bit state word, advanced in place by a pure transition and
//! returned on every call. Any algorithm that offers this contract is
//! substitutable for any other under a higher-level facade.

use vstd::prelude::*;

pub mod xorshift;

verus! {

/// The minimal capability a generator algorithm must expose.
///
/// The contract makes the generator fully deterministic: the output of an
/// advance, and the state word left behind, are pure functions
/// ([`RandomBackend::step`]) of the state word before the call, with no
/// hidden entropy. Calling [`RandomBackend::next_u64`] `n` times from a
/// given state word therefore always reproduces the same sequence of `n`
/// values. The state word equals the last produced value (or the seed,
/// before the first call), and validity of the state word is closed under
/// the transition.
pub trait RandomBackend: Sized {
    /// The state word: the single mutable value that fully determines all
    /// future outputs of this generator instance.
    spec fn state(&self) -> u64;

    /// Which state words the algorithm admits.
    spec fn valid(s: u64) -> bool;

    /// The algorithm's transition rule: the state word and output that one
    /// advance produces from the state word `s`.
    spec fn step(s: u64) -> u64;

    /// Advances the internal state exactly once and returns the new value.
    ///
    /// This operation cannot fail once a generator instance exists.
    fn next_u64(&mut self) -> (r: u64)
        requires
            Self::valid(old(self).state()),
        ensures
            r == Self::step(old(self).state()),
            final(self).state() == r,
            Self::valid(final(self).state()),
    ;
}

} // verus!
