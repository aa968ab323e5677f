//! How a helper process that was launched on the controller's behalf ended.

use vstd::prelude::*;

verus! {

/// The end of a helper process, such as a call of the service manager or
/// of the echo facility.
#[derive(Clone, Copy, Debug, PartialEq, Eq, Structural)]
pub enum Completion {
    /// The process ran to its end and left this exit status.
    Exited(i32),
    /// The process ended without an exit status, as when a signal kills it.
    NoStatus,
    /// The process was still running when its deadline passed.
    TimedOut,
    /// The process could not be launched.
    NotLaunched,
}

impl Completion {
    /// The process ran to its end and reported success.
    pub open spec fn success(self) -> bool {
        self == Completion::Exited(0)
    }

    /// Whether the process ran to its end and reported success.
    #[verifier::when_used_as_spec(success)]
    pub fn succeeded(self) -> (yes: bool)
        ensures
            yes == self.success(),
    {
        match self {
            Completion::Exited(status) => status == 0,
            _ => false,
        }
    }
}

} // verus!
