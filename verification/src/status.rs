use vstd::prelude::*;
use crate::check::Check;
use vstd::std_specs::ops::{BitAndSpec, BitOrSpec, BitXorSpec, NotSpec};

verus! {

/// The status of a health check, accounting for allowable variance.
///
/// Default: `Healthy`. The operators `!`, `&`, `|` and `^` act on it as on
/// the boolean "healthy".
#[derive(Clone, Copy, Debug, PartialEq, Eq, Structural)]
pub enum Status {
    /// The health check is reporting as healthy
    Healthy,
    /// The health check is reporting as unhealthy
    Unhealthy,
}

impl Status {
    /// Whether this status is healthy.
    pub open spec fn healthy(self) -> bool {
        self == Status::Healthy
    }

    /// The status that is healthy exactly when `b` holds.
    pub open spec fn from_healthy(b: bool) -> Status {
        if b {
            Status::Healthy
        } else {
            Status::Unhealthy
        }
    }

    /// The status that a single check result stands for: `Pass` is healthy,
    /// `Failed` is unhealthy.
    pub open spec fn of_check(check: Check) -> Status {
        Status::from_healthy(check.passed())
    }
}

impl Default for Status {
    fn default() -> (status: Self)
        ensures
            status == Status::Healthy,
    {
        Status::Healthy
    }
}

impl core::ops::Not for Status {
    type Output = Status;

    fn not(self) -> (status: Status) {
        match self {
            Status::Healthy => Status::Unhealthy,
            Status::Unhealthy => Status::Healthy,
        }
    }
}

impl vstd::std_specs::ops::NotSpecImpl for Status {
    open spec fn obeys_not_spec() -> bool {
        true
    }

    open spec fn not_req(self) -> bool {
        true
    }

    open spec fn not_spec(self) -> Status {
        Status::from_healthy(!self.healthy())
    }
}

impl core::ops::BitAnd for Status {
    type Output = Status;

    fn bitand(self, rhs: Status) -> (status: Status) {
        match (self, rhs) {
            (Status::Healthy, Status::Healthy) => Status::Healthy,
            _ => Status::Unhealthy,
        }
    }
}

impl vstd::std_specs::ops::BitAndSpecImpl for Status {
    open spec fn obeys_bitand_spec() -> bool {
        true
    }

    open spec fn bitand_req(self, rhs: Status) -> bool {
        true
    }

    open spec fn bitand_spec(self, rhs: Status) -> Status {
        Status::from_healthy(self.healthy() && rhs.healthy())
    }
}

impl core::ops::BitOr for Status {
    type Output = Status;

    fn bitor(self, rhs: Status) -> (status: Status) {
        match (self, rhs) {
            (Status::Healthy, _) | (_, Status::Healthy) => Status::Healthy,
            _ => Status::Unhealthy,
        }
    }
}

impl vstd::std_specs::ops::BitOrSpecImpl for Status {
    open spec fn obeys_bitor_spec() -> bool {
        true
    }

    open spec fn bitor_req(self, rhs: Status) -> bool {
        true
    }

    open spec fn bitor_spec(self, rhs: Status) -> Status {
        Status::from_healthy(self.healthy() || rhs.healthy())
    }
}

impl core::ops::BitXor for Status {
    type Output = Status;

    fn bitxor(self, rhs: Status) -> (status: Status) {
        if self != rhs {
            Status::Healthy
        } else {
            Status::Unhealthy
        }
    }
}

impl vstd::std_specs::ops::BitXorSpecImpl for Status {
    open spec fn obeys_bitxor_spec() -> bool {
        true
    }

    open spec fn bitxor_req(self, rhs: Status) -> bool {
        true
    }

    open spec fn bitxor_spec(self, rhs: Status) -> Status {
        Status::from_healthy(self.healthy() != rhs.healthy())
    }
}

impl From<Check> for Status {
    fn from(hc: Check) -> (status: Status) {
        match hc {
            Check::Pass => Status::Healthy,
            Check::Failed => Status::Unhealthy,
        }
    }
}

impl vstd::std_specs::convert::FromSpecImpl<Check> for Status {
    open spec fn obeys_from_spec() -> bool {
        true
    }

    open spec fn from_spec(hc: Check) -> Status {
        Status::of_check(hc)
    }
}

/// Negating a status twice gives it back.
pub proof fn status_not_not(a: Status)
    ensures
        a.not_spec().not_spec() == a,
{
}

/// De Morgan: the negation of "both healthy" is "either unhealthy", and the
/// negation of "either healthy" is "both unhealthy".
pub proof fn status_de_morgan(a: Status, b: Status)
    ensures
        a.bitand_spec(b).not_spec() == a.not_spec().bitor_spec(b.not_spec()),
        a.bitor_spec(b).not_spec() == a.not_spec().bitand_spec(b.not_spec()),
{
}

/// `&`, `|` and `^` on statuses do not depend on the order of their operands.
pub proof fn status_ops_commute(a: Status, b: Status)
    ensures
        a.bitand_spec(b) == b.bitand_spec(a),
        a.bitor_spec(b) == b.bitor_spec(a),
        a.bitxor_spec(b) == b.bitxor_spec(a),
{
}

/// `a ^ b` is healthy exactly when the two statuses differ.
pub proof fn status_xor_is_difference(a: Status, b: Status)
    ensures
        a.bitxor_spec(b).healthy() <==> a != b,
{
}

/// Turning check results into statuses keeps the operators: the status of
/// `!a`, `a & b`, `a | b` and `a ^ b` is what the same operator gives on the
/// statuses of `a` and `b`, and the conversion tells the two results apart.
pub proof fn status_from_check_keeps_operators(a: Check, b: Check)
    ensures
        Status::of_check(a.not_spec()) == Status::of_check(a).not_spec(),
        Status::of_check(a.bitand_spec(b)) == Status::of_check(a).bitand_spec(Status::of_check(b)),
        Status::of_check(a.bitor_spec(b)) == Status::of_check(a).bitor_spec(Status::of_check(b)),
        Status::of_check(a.bitxor_spec(b)) == Status::of_check(a).bitxor_spec(Status::of_check(b)),
        (Status::of_check(a) == Status::of_check(b)) <==> (a == b),
{
}

/// What each operator gives: `!a` is healthy exactly when `a` does not, `a & b`
/// exactly when both do, `a | b` exactly when at least one does, and `a ^ b`
/// exactly when one does and the other does not.
pub proof fn status_operator_results(a: Status, b: Status)
    ensures
        (a.not_spec() == Status::Healthy) <==> a == Status::Unhealthy,
        (a.bitand_spec(b) == Status::Healthy) <==> (a == Status::Healthy && b == Status::Healthy),
        (a.bitor_spec(b) == Status::Healthy) <==> (a == Status::Healthy || b == Status::Healthy),
        (a.bitxor_spec(b) == Status::Healthy) <==> ((a == Status::Healthy) != (b == Status::Healthy)),
{
}

/// A passing check stands for a healthy status and a failed one for an
/// unhealthy status.
pub proof fn status_of_each_check()
    ensures
        Status::of_check(Check::Pass) == Status::Healthy,
        Status::of_check(Check::Failed) == Status::Unhealthy,
{
}

} // verus!
