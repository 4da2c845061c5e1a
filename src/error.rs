use vstd::prelude::*;

verus! {

/// The two ways a call of this library can be refused.
#[derive(Debug, Clone, Copy, PartialEq, Eq, Structural)]
pub enum AstroError {
    /// The year given was zero: the calendar has no year zero.
    InvalidDate,
    /// The phase code was not one of 0 (new), 1 (first quarter), 2 (full), 3 (last quarter).
    InvalidPhaseType,
}

} // verus!
