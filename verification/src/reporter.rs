use vstd::prelude::*;
use crate::check::Check;
use crate::status::Status;

verus! {

/// A health status reporter
pub trait Reporter {
    /// The current health status without regard to any reliance criteria
    ///
    /// By default it is the status that the result of `last_check` stands
    /// for.
    fn raw_status(&self) -> (status: Status)
        default_ensures
            exists|check: Check|
                call_ensures(Self::last_check, (self,), check) && status == Status::of_check(check),
    {
        Status::from(self.last_check())
    }

    /// The current health status of the underlying health check or `None` if
    /// the current status should not be relyed upon
    ///
    /// By default it is the raw status, always relied upon.
    fn status(&self) -> (status: Option<Status>)
        default_ensures
            exists|raw: Status| call_ensures(Self::raw_status, (self,), raw) && status == Some(raw),
    {
        Some(self.raw_status())
    }

    /// The result of the most recent health check
    ///
    /// Because it may take multiple checks to cause the health status to
    /// change, this value may match the current health status.
    fn last_check(&self) -> Check;
}

} // verus!
