//! Pattern generator errors and the interface that generators implement.

use vstd::prelude::*;
use crate::hal::types::Patch;

verus! {

/// Errors of pattern generator operations.
#[derive(Debug, Clone)]
pub enum PatternGenError {
    ConnectionFailed,
    PatchFailed,
    Timeout,
    Other(String),
}

impl PatternGenError {
    /// The human-readable message of this error.
    pub open spec fn message(&self) -> Seq<char> {
        match self {
            PatternGenError::ConnectionFailed => "Failed to connect to pattern generator"@,
            PatternGenError::PatchFailed => "Failed to display patch"@,
            PatternGenError::Timeout => "Pattern generator timed out"@,
            PatternGenError::Other(m) => m@,
        }
    }

    /// Renders the error message.
    pub fn to_string(&self) -> (r: String)
        ensures
            r@ == self.message(),
    {
        match self {
            PatternGenError::ConnectionFailed => String::from_str(
                "Failed to connect to pattern generator",
            ),
            PatternGenError::PatchFailed => String::from_str("Failed to display patch"),
            PatternGenError::Timeout => String::from_str("Pattern generator timed out"),
            PatternGenError::Other(m) => String::from_str(m.as_str()),
        }
    }
}

/// Interface of a pattern generator, implemented by each generator driver.
pub trait PatternGenerator {
    /// Whether the generator is showing `patch`, in the sense of the
    /// implementing driver.
    spec fn shows(&self, patch: Patch) -> bool;

    /// Whether displaying `patch` on the generator as it is may leave it as
    /// `after` with the result `r`, in the sense of the implementing driver.
    spec fn displays(&self, patch: Patch, after: &Self, r: Result<(), PatternGenError>) -> bool;

    /// Self-test: verify connectivity.
    fn probe(&mut self) -> Result<bool, PatternGenError>;

    /// Display a test patch; on success the generator shows it.
    fn display_patch(&mut self, patch: Patch) -> (r: Result<(), PatternGenError>)
        ensures
            old(self).displays(patch, &*final(self), r),
            r is Ok ==> final(self).shows(patch),
    ;

    /// Display black (clear the patch): the 8-bit patch (0, 0, 0); on
    /// success the generator shows black. The provided method is one
    /// display of that patch, with its result.
    fn display_black(&mut self) -> (r: Result<(), PatternGenError>)
        ensures
            r is Ok ==> final(self).shows(Patch { r: 0, g: 0, b: 0, bit_depth: 8 }),
        default_ensures
            old(self).displays(Patch { r: 0, g: 0, b: 0, bit_depth: 8 }, &*final(self), r),
    {
        self.display_patch(Patch::rgb8(0, 0, 0))
    }

    /// Disconnect from the pattern generator; the provided method succeeds
    /// and leaves what is shown as it was, a driver may do otherwise.
    fn disconnect(&mut self) -> (r: Result<(), PatternGenError>)
        default_ensures
            r is Ok,
            forall|p: Patch| #[trigger] final(self).shows(p) == old(self).shows(p),
    {
        Ok(())
    }
}

} // verus!
