//! How long a task holds the lock, or rests, in each round.
use vstd::prelude::*;
use rand::Rng;
use rand::rngs::ThreadRng;

verus! {

#[verifier::external_type_specification]
#[verifier::external_body]
pub struct ExThreadRng(ThreadRng);

/// Relies on rand::thread_rng: a handle on the random stream of the calling
/// thread. Nothing is known of the values it gives.
#[verifier::external_body]
fn thread_stream() -> (r: ThreadRng) {
    rand::thread_rng()
}

/// Relies on Rng::gen_range, which panics on an empty range, hence the
/// requirement, and otherwise returns a value of the half open range
/// `[low, high)`, drawn uniformly.
#[verifier::external_body]
fn draw_between(rng: &mut ThreadRng, low: u64, high: u64) -> (r: u64)
    requires
        low < high,
    ensures
        low <= r < high,
{
    rng.gen_range(low..high)
}

/// A half open range `[low, high)` of delays, never empty.
pub struct DelayRange {
    low: u64,
    high: u64,
}

impl DelayRange {
    #[verifier::type_invariant]
    spec fn inv(&self) -> bool {
        self.low < self.high
    }

    pub closed spec fn low_spec(&self) -> nat {
        self.low as nat
    }

    pub closed spec fn high_spec(&self) -> nat {
        self.high as nat
    }

    /// The range `[low, high)`; `None` where it would be empty.
    pub fn new(low: u64, high: u64) -> (r: Option<DelayRange>)
        ensures
            r is Some <==> low < high,
            r matches Some(d) ==> d.low_spec() == low && d.high_spec() == high,
    {
        if low < high {
            Some(DelayRange { low, high })
        } else {
            None
        }
    }

    pub fn low(&self) -> (r: u64)
        ensures
            r == self.low_spec(),
    {
        self.low
    }

    pub fn high(&self) -> (r: u64)
        ensures
            r == self.high_spec(),
    {
        self.high
    }
}

/// How the delay of each round is chosen.
pub enum DelayPolicy {
    /// The same delay every round.
    Fixed(u64),
    /// A delay drawn afresh every round, uniformly from the range.
    Uniform(DelayRange),
}

/// Whether a policy allows the delay `d`.
pub open spec fn allowed(p: DelayPolicy, d: nat) -> bool {
    match p {
        DelayPolicy::Fixed(k) => d == k,
        DelayPolicy::Uniform(u) => u.low_spec() <= d < u.high_spec(),
    }
}

/// The delays of one task, with the random stream it draws them from.
pub struct Delays {
    policy: DelayPolicy,
    rng: ThreadRng,
}

impl Delays {
    pub closed spec fn policy(&self) -> DelayPolicy {
        self.policy
    }

    pub fn new(policy: DelayPolicy) -> (r: Delays)
        ensures
            r.policy() == policy,
    {
        Delays { policy, rng: thread_stream() }
    }

    /// The delay of the next round: the fixed one, or one drawn from the
    /// range.
    pub fn next_ms(&mut self) -> (r: u64)
        ensures
            final(self).policy() == old(self).policy(),
            allowed(final(self).policy(), r as nat),
    {
        match &self.policy {
            DelayPolicy::Fixed(k) => *k,
            DelayPolicy::Uniform(u) => {
                proof { use_type_invariant(u); }
                draw_between(&mut self.rng, u.low, u.high)
            },
        }
    }
}

} // verus!
