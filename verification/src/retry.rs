//! Backoff policy: how long to wait before the next connection attempt.

use vstd::prelude::*;

verus! {

/// The wait, in seconds, that a fresh or reset counter holds.
pub const FLOOR_SECS: u64 = 1;

/// The largest stored wait that is still doubled as it stands.
pub const CAP_SECS: u64 = 60;

/// The wait that every later wait equals once the cap has been passed.
pub const CEILING_SECS: u64 = 120;

/// The wait that follows a stored wait of `current` seconds: the stored wait,
/// held to at most [`CAP_SECS`], doubled.
pub open spec fn next_wait(current: int) -> int {
    if current <= CAP_SECS as int {
        current * 2
    } else {
        CAP_SECS as int * 2
    }
}

/// The stored wait after a reset: the floor, whatever was stored before.
pub open spec fn after_reset(stored: int) -> int {
    FLOOR_SECS as int
}

/// The wait returned by the `n`-th call of `next` after a reset, for `n >= 1`;
/// the floor for `n == 0`.
pub open spec fn wait_after(n: nat) -> int
    decreases n,
{
    if n == 0 {
        FLOOR_SECS as int
    } else {
        next_wait(wait_after((n - 1) as nat))
    }
}

/// Retry seconds
pub struct RetrySec(u64);

impl View for RetrySec {
    type V = int;

    closed spec fn view(&self) -> int {
        self.0 as int
    }
}

impl RetrySec {
    #[verifier::type_invariant]
    spec fn inv(self) -> bool {
        FLOOR_SECS <= self.0 <= CEILING_SECS
    }

    /// The stored wait, in seconds.
    pub fn current(&self) -> (secs: u64)
        ensures
            secs == self@,
            FLOOR_SECS <= secs <= CEILING_SECS,
    {
        proof {
            use_type_invariant(self);
        }
        self.0
    }

    /// Creates a new RetrySec with an initial value of 1 second
    pub fn new() -> (r: Self)
        ensures
            r@ == FLOOR_SECS,
    {
        RetrySec(FLOOR_SECS)
    }

    /// Takes the next wait: the stored wait, held to at most 60 seconds,
    /// doubled. The result is stored and returned.
    pub fn next(&mut self) -> (secs: u64)
        ensures
            secs == next_wait(old(self)@),
            final(self)@ == secs,
            2 * FLOOR_SECS <= secs <= CEILING_SECS,
    {
        proof {
            use_type_invariant(&*self);
        }
        let held: u64 = if self.0 <= CAP_SECS { self.0 } else { CAP_SECS };
        self.0 = held * 2;
        self.0
    }

    /// Resets the retry seconds to the initial value of 1 second
    pub fn reset(&mut self)
        ensures
            final(self)@ == after_reset(old(self)@),
    {
        self.0 = FLOOR_SECS;
    }
}

/// While the stored wait has not passed the cap, the next wait is its double.
pub proof fn lemma_next_wait_doubles(current: int)
    requires
        current <= CAP_SECS,
    ensures
        next_wait(current) == 2 * current,
{
}

/// Once the stored wait has passed the cap, the next wait is twice the cap,
/// and so is every wait after it.
pub proof fn lemma_next_wait_levels_off(current: int)
    requires
        current > CAP_SECS,
    ensures
        next_wait(current) == CEILING_SECS,
        next_wait(next_wait(current)) == CEILING_SECS,
{
}

/// Counted from a reset, each of the first six waits is twice the one before
/// it.
pub proof fn lemma_wait_doubles(n: nat)
    requires
        1 <= n <= 6,
    ensures
        wait_after(n) == 2 * wait_after((n - 1) as nat),
{
    reveal_with_fuel(wait_after, 8);
}

/// Counted from a reset, the waits are 2, 4, 8, 16, 32, 64, and from the
/// seventh on 120.
pub proof fn lemma_wait_sequence(n: nat)
    ensures
        wait_after(1) == 2,
        wait_after(2) == 4,
        wait_after(3) == 8,
        wait_after(4) == 16,
        wait_after(5) == 32,
        wait_after(6) == 64,
        wait_after(7) == 120,
        n >= 7 ==> wait_after(n) == CEILING_SECS,
    decreases n,
{
    reveal_with_fuel(wait_after, 8);
    if n > 7 {
        lemma_wait_sequence((n - 1) as nat);
    }
}

/// Whatever is stored, and so after any number of waits, a reset leads to a
/// next wait of 2 seconds.
pub proof fn lemma_reset_restarts(stored: int, n: nat)
    ensures
        next_wait(after_reset(stored)) == 2,
        next_wait(after_reset(wait_after(n))) == wait_after(1),
{
    reveal_with_fuel(wait_after, 2);
}

/// Every wait counted from a reset lies between the floor and the ceiling.
pub proof fn lemma_wait_bounds(n: nat)
    ensures
        FLOOR_SECS <= wait_after(n) <= CEILING_SECS,
    decreases n,
{
    if n > 0 {
        lemma_wait_bounds((n - 1) as nat);
    }
}

} // verus!
