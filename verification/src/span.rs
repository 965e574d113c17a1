use vstd::prelude::*;

verus! {

/// Nanoseconds in one second.
pub const NANOS_PER_SEC: u32 = 1_000_000_000;

/// A span of time, held as whole seconds and the nanoseconds beyond them.
///
/// Its view is the whole span in nanoseconds. The checker's clock, its
/// interval and its leeway are measured in spans.
#[derive(Clone, Copy, Debug, PartialEq, Eq, Structural)]
pub struct Span {
    secs: u64,
    nanos: u32,
}

impl Span {
    #[verifier::type_invariant]
    spec fn nanos_below_one_second(self) -> bool {
        self.nanos < NANOS_PER_SEC
    }

    /// The whole span in nanoseconds.
    pub closed spec fn total_nanos(self) -> nat {
        (self.secs * NANOS_PER_SEC + self.nanos) as nat
    }

    proof fn split_nanos(secs: u64, nanos: u32)
        requires
            nanos < NANOS_PER_SEC,
        ensures
            ((secs * NANOS_PER_SEC + nanos) as nat) / (NANOS_PER_SEC as nat) == secs,
            ((secs * NANOS_PER_SEC + nanos) as nat) % (NANOS_PER_SEC as nat) == nanos,
    {
        vstd::arithmetic::div_mod::lemma_fundamental_div_mod_converse(
            (secs * NANOS_PER_SEC + nanos) as int,
            NANOS_PER_SEC as int,
            secs as int,
            nanos as int,
        );
    }

    /// The span of `secs` seconds and `nanos` nanoseconds; nanoseconds of a
    /// second or more carry into the seconds.
    pub fn new(secs: u64, nanos: u32) -> (span: Span)
        requires
            secs + nanos / NANOS_PER_SEC <= u64::MAX,
        ensures
            span@ == secs * NANOS_PER_SEC + nanos,
    {
        let carry: u64 = (nanos / NANOS_PER_SEC) as u64;
        let rest: u32 = nanos % NANOS_PER_SEC;
        Span { secs: secs + carry, nanos: rest }
    }

    /// The span of `secs` whole seconds.
    pub fn from_secs(secs: u64) -> (span: Span)
        ensures
            span@ == secs * NANOS_PER_SEC,
    {
        Span { secs, nanos: 0 }
    }

    /// The whole seconds of the span.
    pub fn as_secs(&self) -> (secs: u64)
        ensures
            secs == self@ / (NANOS_PER_SEC as nat),
    {
        proof {
            use_type_invariant(self);
            Span::split_nanos(self.secs, self.nanos);
        }
        self.secs
    }

    /// The nanoseconds of the span beyond its whole seconds.
    pub fn subsec_nanos(&self) -> (nanos: u32)
        ensures
            nanos == self@ % (NANOS_PER_SEC as nat),
    {
        proof {
            use_type_invariant(self);
            Span::split_nanos(self.secs, self.nanos);
        }
        self.nanos
    }

    /// `self - earlier`, or `None` where `earlier` is the longer span.
    pub fn checked_sub(&self, earlier: &Span) -> (diff: Option<Span>)
        ensures
            diff is Some <==> earlier@ <= self@,
            diff matches Some(d) ==> d@ == self@ - earlier@,
    {
        proof {
            use_type_invariant(self);
            use_type_invariant(earlier);
        }
        if self.secs < earlier.secs {
            None
        } else if self.secs == earlier.secs {
            if self.nanos < earlier.nanos {
                None
            } else {
                Some(Span { secs: 0, nanos: self.nanos - earlier.nanos })
            }
        } else if self.nanos >= earlier.nanos {
            Some(Span { secs: self.secs - earlier.secs, nanos: self.nanos - earlier.nanos })
        } else {
            Some(
                Span {
                    secs: self.secs - earlier.secs - 1,
                    nanos: NANOS_PER_SEC - earlier.nanos + self.nanos,
                },
            )
        }
    }

    /// Whether this span is strictly longer than `other`.
    pub fn is_longer_than(&self, other: &Span) -> (longer: bool)
        ensures
            longer == (self@ > other@),
    {
        proof {
            use_type_invariant(self);
            use_type_invariant(other);
        }
        self.secs > other.secs || (self.secs == other.secs && self.nanos > other.nanos)
    }
}

impl View for Span {
    type V = nat;

    open spec fn view(&self) -> nat {
        self.total_nanos()
    }
}

impl Default for Span {
    fn default() -> (span: Span)
        ensures
            span@ == 0,
    {
        Span { secs: 0, nanos: 0 }
    }
}

} // verus!
