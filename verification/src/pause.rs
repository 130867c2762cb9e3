//! Pauses between attempts, measured the way the runtime's timer takes them.
use vstd::prelude::*;

verus! {

/// Nanoseconds in one second.
pub const NANOS_PER_SEC: u32 = 1_000_000_000;

/// Nanoseconds in one millisecond.
pub const NANOS_PER_MILLI: u32 = 1_000_000;

/// A span of time: whole seconds and the nanoseconds beyond them.
pub struct Pause {
    secs: u64,
    nanos: u32,
}

impl View for Pause {
    /// The span as a count of nanoseconds.
    type V = nat;

    closed spec fn view(&self) -> nat {
        (self.secs * NANOS_PER_SEC + self.nanos) as nat
    }
}

/// `2^64`: the timer takes its milliseconds as a `u64`, wrapping what does not fit.
pub open spec fn u64_modulus() -> nat {
    0x1_0000_0000_0000_0000nat
}

/// The whole milliseconds of a span of `nanos` nanoseconds, wrapped into a `u64`.
pub open spec fn wrapped_whole_millis(nanos: nat) -> nat {
    (nanos / (NANOS_PER_MILLI as nat)) % u64_modulus()
}

impl Pause {
    #[verifier::type_invariant]
    spec fn well_formed(self) -> bool {
        self.nanos < NANOS_PER_SEC
    }

    /// A pause of `secs` seconds and `nanos` nanoseconds; nanoseconds beyond a
    /// second carry into the seconds.
    pub fn new(secs: u64, nanos: u32) -> (p: Pause)
        requires
            secs + nanos / NANOS_PER_SEC <= u64::MAX,
        ensures
            p@ == secs * NANOS_PER_SEC + nanos,
    {
        let carry: u64 = (nanos / NANOS_PER_SEC) as u64;
        let rest: u32 = nanos % NANOS_PER_SEC;
        proof {
            assert(nanos == carry * NANOS_PER_SEC + rest);
            assert((secs + carry) * NANOS_PER_SEC + rest == secs * NANOS_PER_SEC + nanos)
                by (nonlinear_arith)
                requires
                    nanos == carry * NANOS_PER_SEC + rest,
            ;
        }
        Pause { secs: secs + carry, nanos: rest }
    }

    /// A pause of `millis` milliseconds.
    pub fn from_millis(millis: u64) -> (p: Pause)
        ensures
            p@ == millis * NANOS_PER_MILLI,
    {
        let secs: u64 = millis / 1000;
        let rest: u64 = millis % 1000;
        let nanos: u32 = (rest as u32) * NANOS_PER_MILLI;
        proof {
            assert(millis == secs * 1000 + rest);
            assert(secs * NANOS_PER_SEC + nanos == millis * NANOS_PER_MILLI) by (nonlinear_arith)
                requires
                    millis == secs * 1000 + rest,
                    nanos == rest * NANOS_PER_MILLI,
            ;
        }
        Pause { secs, nanos }
    }

    /// The milliseconds that the timer is armed with for this pause: the whole
    /// milliseconds of the span (a fraction of a millisecond is dropped),
    /// wrapped into a `u64`.
    pub fn whole_millis(&self) -> (ms: u64)
        ensures
            ms == wrapped_whole_millis(self@),
    {
        proof {
            use_type_invariant(self);
        }
        let total: u128 = (self.secs as u128) * 1000 + ((self.nanos / NANOS_PER_MILLI) as u128);
        proof {
            let s = self.secs as int;
            let n = self.nanos as int;
            assert((s * 1_000_000_000 + n) / 1_000_000 == s * 1000 + n / 1_000_000)
                by (nonlinear_arith)
                requires
                    0 <= n < 1_000_000_000,
                    0 <= s,
            ;
        }
        (total % 0x1_0000_0000_0000_0000u128) as u64
    }
}

/// Arming the timer with a pause made from `millis` milliseconds gives back
/// exactly `millis`.
pub proof fn lemma_from_millis_round_trips(millis: u64)
    ensures
        wrapped_whole_millis((millis as nat) * (NANOS_PER_MILLI as nat)) == millis,
{
    assert((millis * 1_000_000) / 1_000_000 == millis as int) by (nonlinear_arith);
}

/// The timer's milliseconds fit a `u64`, and for any span that fits (below
/// `2^64` milliseconds) they are its whole milliseconds: the largest count of
/// milliseconds not longer than the span.
pub proof fn lemma_whole_millis_is_floor(nanos: nat)
    ensures
        wrapped_whole_millis(nanos) < u64_modulus(),
        nanos < u64_modulus() * (NANOS_PER_MILLI as nat) ==> {
            &&& wrapped_whole_millis(nanos) * 1_000_000 <= nanos
            &&& nanos < (wrapped_whole_millis(nanos) + 1) * 1_000_000
        },
{
    let q = nanos / 1_000_000;
    assert(q * 1_000_000 <= nanos < (q + 1) * 1_000_000) by (nonlinear_arith)
        requires
            q == nanos / 1_000_000,
    ;
    if nanos < u64_modulus() * (NANOS_PER_MILLI as nat) {
        assert(q < u64_modulus()) by (nonlinear_arith)
            requires
                q * 1_000_000 <= nanos,
                nanos < 0x1_0000_0000_0000_0000nat * 1_000_000,
        ;
        assert(q % u64_modulus() == q) by (nonlinear_arith)
            requires
                q < 0x1_0000_0000_0000_0000nat,
        ;
    }
}

} // verus!
