use vstd::prelude::*;
use vstd::std_specs::ops::{BitAndSpec, BitOrSpec, BitXorSpec, NotSpec};

verus! {

/// A report of a single health check run.
///
/// Default: `Pass`. The operators `!`, `&`, `|` and `^` act on it as on the
/// boolean "the check passed".
#[derive(Clone, Copy, Debug, PartialEq, Eq, Structural)]
pub enum Check {
    /// The health check passed
    Pass,
    /// The health check failed
    Failed,
}

impl Check {
    /// Whether this result is a pass.
    pub open spec fn passed(self) -> bool {
        self == Check::Pass
    }

    /// The result that passes exactly when `b` holds.
    pub open spec fn from_passed(b: bool) -> Check {
        if b {
            Check::Pass
        } else {
            Check::Failed
        }
    }
}

impl Default for Check {
    fn default() -> (check: Self)
        ensures
            check == Check::Pass,
    {
        Check::Pass
    }
}

impl core::ops::Not for Check {
    type Output = Check;

    fn not(self) -> (check: Check) {
        match self {
            Check::Pass => Check::Failed,
            Check::Failed => Check::Pass,
        }
    }
}

impl vstd::std_specs::ops::NotSpecImpl for Check {
    open spec fn obeys_not_spec() -> bool {
        true
    }

    open spec fn not_req(self) -> bool {
        true
    }

    open spec fn not_spec(self) -> Check {
        Check::from_passed(!self.passed())
    }
}

impl core::ops::BitAnd for Check {
    type Output = Check;

    fn bitand(self, rhs: Check) -> (check: Check) {
        match (self, rhs) {
            (Check::Pass, Check::Pass) => Check::Pass,
            _ => Check::Failed,
        }
    }
}

impl vstd::std_specs::ops::BitAndSpecImpl for Check {
    open spec fn obeys_bitand_spec() -> bool {
        true
    }

    open spec fn bitand_req(self, rhs: Check) -> bool {
        true
    }

    open spec fn bitand_spec(self, rhs: Check) -> Check {
        Check::from_passed(self.passed() && rhs.passed())
    }
}

impl core::ops::BitOr for Check {
    type Output = Check;

    fn bitor(self, rhs: Check) -> (check: Check) {
        match (self, rhs) {
            (Check::Pass, _) | (_, Check::Pass) => Check::Pass,
            _ => Check::Failed,
        }
    }
}

impl vstd::std_specs::ops::BitOrSpecImpl for Check {
    open spec fn obeys_bitor_spec() -> bool {
        true
    }

    open spec fn bitor_req(self, rhs: Check) -> bool {
        true
    }

    open spec fn bitor_spec(self, rhs: Check) -> Check {
        Check::from_passed(self.passed() || rhs.passed())
    }
}

impl core::ops::BitXor for Check {
    type Output = Check;

    fn bitxor(self, rhs: Check) -> (check: Check) {
        if self != rhs {
            Check::Pass
        } else {
            Check::Failed
        }
    }
}

impl vstd::std_specs::ops::BitXorSpecImpl for Check {
    open spec fn obeys_bitxor_spec() -> bool {
        true
    }

    open spec fn bitxor_req(self, rhs: Check) -> bool {
        true
    }

    open spec fn bitxor_spec(self, rhs: Check) -> Check {
        Check::from_passed(self.passed() != rhs.passed())
    }
}

/// Negating a check result twice gives it back.
pub proof fn check_not_not(a: Check)
    ensures
        a.not_spec().not_spec() == a,
{
}

/// De Morgan: the negation of "both passed" is "either failed", and the
/// negation of "either passed" is "both failed".
pub proof fn check_de_morgan(a: Check, b: Check)
    ensures
        a.bitand_spec(b).not_spec() == a.not_spec().bitor_spec(b.not_spec()),
        a.bitor_spec(b).not_spec() == a.not_spec().bitand_spec(b.not_spec()),
{
}

/// `&`, `|` and `^` on check results do not depend on the order of their
/// operands.
pub proof fn check_ops_commute(a: Check, b: Check)
    ensures
        a.bitand_spec(b) == b.bitand_spec(a),
        a.bitor_spec(b) == b.bitor_spec(a),
        a.bitxor_spec(b) == b.bitxor_spec(a),
{
}

/// `a ^ b` passes exactly when the two results differ, and `a ^ b` is
/// `(a & !b) | (!a & b)`.
pub proof fn check_xor_is_difference(a: Check, b: Check)
    ensures
        a.bitxor_spec(b).passed() <==> a != b,
        a.bitxor_spec(b) == a.bitand_spec(b.not_spec()).bitor_spec(a.not_spec().bitand_spec(b)),
{
}

/// What each operator gives: `!a` passes exactly when `a` does not, `a & b`
/// exactly when both do, `a | b` exactly when at least one does, and `a ^ b`
/// exactly when one does and the other does not.
pub proof fn check_operator_results(a: Check, b: Check)
    ensures
        (a.not_spec() == Check::Pass) <==> a == Check::Failed,
        (a.bitand_spec(b) == Check::Pass) <==> (a == Check::Pass && b == Check::Pass),
        (a.bitor_spec(b) == Check::Pass) <==> (a == Check::Pass || b == Check::Pass),
        (a.bitxor_spec(b) == Check::Pass) <==> ((a == Check::Pass) != (b == Check::Pass)),
{
}

} // verus!
