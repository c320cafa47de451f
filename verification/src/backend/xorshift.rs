//! A 64-bit xorshift random number generator.
//!
//! The generator holds one 8-byte state word and advances it by the classic
//! xorshift recurrence with shift triple (13, 7, 17), which has period
//! 2^64 - 1 over the nonzero state words.
//!
//! Zero is an absorbing fixed point of the recurrence (every later output
//! would also be zero), so a zero state word is rejected at construction;
//! [`lemma_step_nonzero`] shows it can never arise from the recurrence
//! applied to a nonzero state word.

use vstd::prelude::*;

use crate::backend::RandomBackend;

verus! {

/// One application of the xorshift(13, 7, 17) transform: three xor/shift
/// steps over the full 64-bit width, bits shifted out discarded.
pub open spec fn xorshift_step(x: u64) -> u64 {
    let a = x ^ (x << 13u64);
    let b = a ^ (a >> 7u64);
    b ^ (b << 17u64)
}

/// The state word after `n` advances from `seed`; each advance also returns
/// the state word it produces, so this is the `n`-th output for `n >= 1`.
pub open spec fn nth_state(seed: u64, n: nat) -> u64
    decreases n,
{
    if n == 0 {
        seed
    } else {
        xorshift_step(nth_state(seed, (n - 1) as nat))
    }
}

/// `q` is a sequence of outputs observed from a generator seeded with
/// `seed`: `q[0]` came from the first advance, and each later entry from
/// the advance after the one before.
pub open spec fn is_run(seed: u64, q: Seq<u64>) -> bool {
    forall|i: int|
        0 <= i < q.len() ==> #[trigger] q[i] == xorshift_step(
            if i == 0 {
                seed
            } else {
                q[i - 1]
            },
        )
}

/// The transform maps a nonzero state word to a nonzero state word: each of
/// its three xor/shift steps is invertible over the 64-bit words, so zero is
/// reached only from zero.
pub proof fn lemma_step_nonzero(x: u64)
    requires
        x != 0,
    ensures
        xorshift_step(x) != 0,
{
    assert(xorshift_step(x) != 0) by (bit_vector)
        requires
            x != 0,
    ;
}

/// Closure of the nonzero state space: from a nonzero seed, the state word
/// is never zero, however many advances have been made.
pub proof fn lemma_nonzero_closure(seed: u64, n: nat)
    requires
        seed != 0,
    ensures
        nth_state(seed, n) != 0,
    decreases n,
{
    if n > 0 {
        lemma_nonzero_closure(seed, (n - 1) as nat);
        lemma_step_nonzero(nth_state(seed, (n - 1) as nat));
    }
}

/// Every output observed from `seed` is the one the model predicts: the
/// `i`-th entry of a run is the state word after `i + 1` advances.
pub proof fn lemma_run_matches_model(seed: u64, q: Seq<u64>, i: int)
    requires
        is_run(seed, q),
        0 <= i < q.len(),
    ensures
        q[i] == nth_state(seed, (i + 1) as nat),
    decreases i,
{
    if i > 0 {
        lemma_run_matches_model(seed, q, i - 1);
        assert(q[i] == xorshift_step(q[i - 1]));
        assert(q[i - 1] == nth_state(seed, i as nat));
        assert(nth_state(seed, (i + 1) as nat) == xorshift_step(nth_state(seed, i as nat)));
    } else {
        assert(q[0] == xorshift_step(seed));
        assert(nth_state(seed, 1) == xorshift_step(nth_state(seed, 0)));
    }
}

/// Determinism: repeated fresh generators with the same seed produce
/// identical output sequences of any length: two runs observed from one
/// seed agree wherever both are defined.
pub proof fn lemma_deterministic(seed: u64, q1: Seq<u64>, q2: Seq<u64>)
    requires
        is_run(seed, q1),
        is_run(seed, q2),
        q1.len() == q2.len(),
    ensures
        q1 == q2,
{
    assert forall|i: int| 0 <= i < q1.len() implies q1[i] == q2[i] by {
        lemma_run_matches_model(seed, q1, i);
        lemma_run_matches_model(seed, q2, i);
    }
    assert(q1 =~= q2);
}

/// A 64-bit xorshift generator: a single state word, exclusively owned,
/// advanced in place on every call.
pub struct XorShift {
    state: u64,
}

impl XorShift {
    /// Creates a generator whose state word is `seed`.
    ///
    /// A zero seed is an invalid state for the xorshift recurrence and is
    /// excluded by precondition; construction cannot otherwise fail.
    pub fn new(seed: u64) -> (r: XorShift)
        requires
            seed != 0,
        ensures
            r.state() == seed,
    {
        XorShift { state: seed }
    }

    /// Creates a generator whose state word is `seed`, or nothing if and
    /// only if `seed` is zero. A caller that treats a zero seed as a
    /// programming bug unwraps the result immediately.
    pub fn try_new(seed: u64) -> (r: Option<XorShift>)
        ensures
            r is Some <==> seed != 0,
            r matches Some(g) ==> g.state() == seed,
    {
        if seed == 0 {
            None
        } else {
            Some(XorShift { state: seed })
        }
    }
}

impl RandomBackend for XorShift {
    closed spec fn state(&self) -> u64 {
        self.state
    }

    open spec fn valid(s: u64) -> bool {
        s != 0
    }

    open spec fn step(s: u64) -> u64 {
        xorshift_step(s)
    }

    fn next_u64(&mut self) -> (r: u64) {
        let mut x = self.state;
        x = x ^ (x << 13u64);
        x = x ^ (x >> 7u64);
        x = x ^ (x << 17u64);
        self.state = x;
        proof {
            lemma_step_nonzero(old(self).state);
        }
        x
    }
}

} // verus!
