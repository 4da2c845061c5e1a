use vstd::prelude::*;
use crate::error::AstroError;

verus! {

/// The four principal phases of the Moon, in the order they occur.
#[derive(Debug, Clone, Copy, PartialEq, Eq, Structural)]
pub enum PhaseKind {
    NewMoon,
    FirstQuarter,
    FullMoon,
    LastQuarter,
}

impl PhaseKind {
    /// The phase's code: 0 new moon, 1 first quarter, 2 full moon, 3 last quarter.
    pub open spec fn spec_code(self) -> int {
        match self {
            PhaseKind::NewMoon => 0,
            PhaseKind::FirstQuarter => 1,
            PhaseKind::FullMoon => 2,
            PhaseKind::LastQuarter => 3,
        }
    }

    /// The phase with code `nph`; any code outside 0..=3 is refused.
    pub fn from_code(nph: i32) -> (r: Result<PhaseKind, AstroError>)
        ensures
            0 <= nph <= 3 <==> r is Ok,
            r is Ok ==> r->Ok_0.spec_code() == nph,
            !(0 <= nph <= 3) ==> r == Err::<PhaseKind, AstroError>(AstroError::InvalidPhaseType),
    {
        match nph {
            0 => Ok(PhaseKind::NewMoon),
            1 => Ok(PhaseKind::FirstQuarter),
            2 => Ok(PhaseKind::FullMoon),
            3 => Ok(PhaseKind::LastQuarter),
            _ => Err(AstroError::InvalidPhaseType),
        }
    }

    /// The phase's code: 0 new moon, 1 first quarter, 2 full moon, 3 last quarter.
    pub fn code(&self) -> (r: i32)
        ensures
            r == self.spec_code(),
    {
        match self {
            PhaseKind::NewMoon => 0,
            PhaseKind::FirstQuarter => 1,
            PhaseKind::FullMoon => 2,
            PhaseKind::LastQuarter => 3,
        }
    }

    /// Whether the phase is a quarter, whose correction series differs from
    /// the one of new and full moon.
    pub fn is_quarter(&self) -> (r: bool)
        ensures
            r == (self.spec_code() % 2 == 1),
    {
        match self {
            PhaseKind::FirstQuarter | PhaseKind::LastQuarter => true,
            _ => false,
        }
    }
}

/// The first estimate of the Julian Day Number of the `n`-th phase of the given
/// kind since January 1900: `2415020 + 28 n + 7 code`.
pub open spec fn base_day(n: int, kind: PhaseKind) -> int {
    2415020 + 28 * n + 7 * kind.spec_code()
}

/// The whole-day estimate that the correction series of the `n`-th phase of
/// kind `kind` is added to.
pub fn phase_base_day(n: i32, kind: PhaseKind) -> (r: i64)
    ensures
        r == base_day(n as int, kind),
{
    2415020 + 28 * (n as i64) + 7 * (kind.code() as i64)
}

} // verus!
