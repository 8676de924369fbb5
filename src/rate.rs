use vstd::prelude::*;

verus! {

/// Number of transactions accepted since the last reset; the owner resets
/// it once per second.
pub struct RateCounter {
    count: u64,
}

impl View for RateCounter {
    type V = nat;

    closed spec fn view(&self) -> nat {
        self.count as nat
    }
}

/// `v` after `n` increments, each adding one as `increment` does.
pub open spec fn incremented(v: nat, n: nat) -> nat
    decreases n,
{
    if n == 0 {
        v
    } else {
        incremented(v, (n - 1) as nat) + 1
    }
}

/// One more increment after `n` of them is `n + 1` increments, and reading the
/// counter after a reset (which gives 0) and `n` increments gives `n`.
pub proof fn lemma_increments_after_reset(v: nat, n: nat)
    ensures
        incremented(incremented(v, n), 1) == incremented(v, n + 1),
        incremented(0, n) == n,
    decreases n,
{
    assert(incremented(incremented(v, n), 0) == incremented(v, n));
    if n > 0 {
        lemma_increments_after_reset(v, (n - 1) as nat);
    }
}

impl RateCounter {
    pub fn new() -> (r: Self)
        ensures
            r@ == 0,
    {
        RateCounter { count: 0 }
    }

    /// Adds one accepted transaction to the current window.
    pub fn increment(&mut self)
        requires
            old(self)@ < u64::MAX,
        ensures
            final(self)@ == incremented(old(self)@, 1),
            final(self)@ == old(self)@ + 1,
    {
        proof {
            reveal_with_fuel(incremented, 2);
        }
        self.count = self.count + 1;
    }

    /// Starts a new window.
    pub fn reset(&mut self)
        ensures
            final(self)@ == 0,
    {
        self.count = 0;
    }

    /// Transactions accepted in the current window.
    pub fn snapshot(&self) -> (r: u64)
        ensures
            r == self@,
    {
        self.count
    }

    /// Whether one more transaction can be counted in this window.
    pub fn has_room(&self) -> (r: bool)
        ensures
            r == (self@ < u64::MAX),
    {
        self.count < u64::MAX
    }
}

} // verus!
