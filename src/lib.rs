//! Julian Day Numbers for calendar dates, and the integer part of the
//! classical lunar phase series.

pub mod error;
pub mod julian;
pub mod moon;

pub use error::AstroError;
pub use julian::julday;
pub use moon::{phase_base_day, PhaseKind};
