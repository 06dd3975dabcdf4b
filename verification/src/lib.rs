//! Conversion of proleptic-Gregorian dates to the traditional Japanese
//! lunisolar calendar (kyureki): lunar year, lunar month, leap-month flag,
//! day of month, and the six-day rokuyou fortune label.
//!
//! The astronomical side of the computation (a low-precision solar/lunar
//! ephemeris and the iterative solvers for principal solar terms and new
//! moons) works in floating point and therefore lives outside this library;
//! it hands over its results as whole astronomical day numbers. Everything
//! built from those day numbers is here, verified: numbering the lunar
//! months, placing the single leap month, locating a date inside the month
//! table, the cross-year correction, and the rokuyou cycle.
use vstd::prelude::*;

pub mod gregorian;
pub mod resolve;
pub mod rokuyou;
pub mod table;

pub use gregorian::gregorian_to_astro_day;
pub use resolve::kyureki_checked;
pub use resolve::kyureki_from_table;
pub use rokuyou::getrokuyou;
pub use table::build_month_table;
pub use table::check_alignment;
pub use table::needs_reseed;
pub use table::Alignment;
pub use table::MonthRecord;

verus! {

/// A date in the traditional Japanese lunisolar calendar.
#[derive(Debug)]
pub struct Qreki {
    /// Lunar year.
    pub qy: i32,
    /// Lunar month, always in 1..=12.
    pub qm: u32,
    /// Day of the lunar month, always >= 1.
    pub qd: u32,
    /// Whether the month is the intercalary (leap) month.
    pub ql: bool,
    /// The rokuyou fortune label of the day.
    pub qr: &'static str,
}

/// Why a conversion cannot produce a result.
#[derive(Debug, Clone, Copy, PartialEq, Eq, Structural)]
pub enum QrekiError {
    /// The input does not form a real proleptic-Gregorian date.
    InvalidDate,
    /// An iterative solver did not converge within its iteration budget, so
    /// the month table does not contain the requested day.
    Convergence,
}

} // verus!
