//! The lunar month table: five consecutive months assembled from four
//! principal-term instants and five new-moon instants, all given as whole
//! astronomical day numbers, with month numbering and leap-month placement.
use vstd::prelude::*;

verus! {

/// One lunar month: its number, whether it is the intercalary (leap) month,
/// and the astronomical day number it starts on. A month spans from `start`
/// up to (exclusive) the next record's start.
#[derive(Debug, Clone, Copy, PartialEq, Eq, Structural)]
pub struct MonthRecord {
    /// Month number, 1..=12.
    pub num: i64,
    /// Whether this is the leap month.
    pub leap: bool,
    /// Astronomical day number of the month's first day.
    pub start: i64,
}

/// How the new-moon sequence must be shifted so that the first new moon is
/// at or before the first principal term and the second is after it.
#[derive(Debug, Clone, Copy, PartialEq, Eq, Structural)]
pub enum Alignment {
    /// The second new moon is still no later than the first principal term:
    /// drop the leading new moon and solve for one more trailing one.
    ShiftLeft,
    /// The first new moon falls after the first principal term: shift right
    /// and solve for one more leading new moon.
    ShiftRight,
    /// Already aligned.
    Keep,
}

/// Decides the shift from the whole-day numbers of the first two new moons
/// and the first principal term.
pub fn check_alignment(saku0: i64, saku1: i64, chu0: i64) -> (r: Alignment)
    ensures
        r == (if saku1 <= chu0 {
            Alignment::ShiftLeft
        } else if saku0 > chu0 {
            Alignment::ShiftRight
        } else {
            Alignment::Keep
        }),
{
    if saku1 <= chu0 {
        Alignment::ShiftLeft
    } else if saku0 > chu0 {
        Alignment::ShiftRight
    } else {
        Alignment::Keep
    }
}

/// Whether a freshly solved new moon lands within 26 days of the previous
/// one — a false near-duplicate that must be solved again from a later seed.
pub fn needs_reseed(prev: i64, cur: i64) -> (r: bool)
    requires
        -1000000000 <= prev <= 1000000000,
        -1000000000 <= cur <= 1000000000,
    ensures
        r == (-26 <= prev - cur <= 26),
{
    let diff: i64 = prev - cur;
    -26 <= diff && diff <= 26
}

/// The table holds a leap month at all: the fifth new moon falls no later
/// than the fourth principal term, so five lunar months fit in the span of
/// three principal-term intervals and one of them contains no term.
pub open spec fn table_has_leap(chu: Seq<i64>, saku: Seq<i64>) -> bool {
    saku[4] <= chu[3]
}

/// Month slot `j` can be the leap month: the principal term paired with it
/// does not fall strictly inside the month's day span.
pub open spec fn leap_eligible(chu: Seq<i64>, saku: Seq<i64>, j: int) -> bool {
    chu[j] <= saku[j] || chu[j] >= saku[j + 1]
}

/// The slot of the leap month: the first eligible slot among 1..=3 when the
/// table holds a leap month at all; 0 when no month is leap (the first slot
/// itself is never leap).
pub open spec fn leap_slot(chu: Seq<i64>, saku: Seq<i64>) -> int {
    if !table_has_leap(chu, saku) {
        0
    } else if leap_eligible(chu, saku, 1) {
        1
    } else if leap_eligible(chu, saku, 2) {
        2
    } else if leap_eligible(chu, saku, 3) {
        3
    } else {
        0
    }
}

/// Month numbers wrap from 12 back to 1.
pub open spec fn wrap12(n: int) -> int {
    if n > 12 {
        n - 12
    } else {
        n
    }
}

/// Number of the month in slot `k`: the first month's number comes from the
/// first principal term's longitude, each later month adds one (wrapping),
/// and the leap month repeats its predecessor's number.
pub open spec fn month_number(first_long: int, chu: Seq<i64>, saku: Seq<i64>, k: int) -> int {
    let base = first_long / 30 + 2;
    let j = leap_slot(chu, saku);
    if j != 0 && k >= j {
        wrap12(base + k - 1)
    } else {
        wrap12(base + k)
    }
}

/// The whole five-month table.
pub open spec fn spec_month_table(chu: Seq<i64>, first_long: int, saku: Seq<i64>) -> Seq<
    MonthRecord,
> {
    Seq::new(
        5,
        |k: int|
            MonthRecord {
                num: month_number(first_long, chu, saku, k) as i64,
                leap: k == leap_slot(chu, saku) && k != 0,
                start: saku[k],
            },
    )
}

/// Month numbers wrap from 12 back to 1 (executable form).
fn wrap12_month(n: i64) -> (r: i64)
    requires
        0 <= n <= 100,
    ensures
        r == wrap12(n as int),
{
    if n > 12 {
        n - 12
    } else {
        n
    }
}

/// Assembles the five month records from the principal-term days, the first
/// principal term's solar longitude (a whole multiple of 90 degrees), and
/// the new-moon days.
pub fn build_month_table(chu: &[i64; 4], first_long: i64, saku: &[i64; 5]) -> (t: Vec<MonthRecord>)
    requires
        0 <= first_long < 360,
        first_long % 90 == 0,
    ensures
        t@ == spec_month_table(chu@, first_long as int, saku@),
{
    let base: i64 = first_long / 30 + 2;
    let lap: bool = saku[4] <= chu[3];
    let slot: usize = if lap && (chu[1] <= saku[1] || chu[1] >= saku[2]) {
        1
    } else if lap && (chu[2] <= saku[2] || chu[2] >= saku[3]) {
        2
    } else if lap && (chu[3] <= saku[3] || chu[3] >= saku[4]) {
        3
    } else {
        0
    };
    let mut t: Vec<MonthRecord> = Vec::new();
    let mut k: usize = 0;
    while k < 5
        invariant
            k <= 5,
            t@.len() == k,
            base == first_long / 30 + 2,
            0 <= first_long < 360,
            first_long % 90 == 0,
            slot as int == leap_slot(chu@, saku@),
            forall|i: int|
                0 <= i < k ==> t@[i] == spec_month_table(chu@, first_long as int, saku@)[i],
        decreases 5 - k,
    {
        let num: i64 = if slot != 0 && k >= slot {
            wrap12_month(base + k as i64 - 1)
        } else {
            wrap12_month(base + k as i64)
        };
        let leap: bool = slot != 0 && k == slot;
        t.push(MonthRecord { num, leap, start: saku[k] });
        k += 1;
    }
    proof {
        assert(t@ =~= spec_month_table(chu@, first_long as int, saku@));
    }
    t
}

/// The table over one span of principal terms holds at most one leap month.
pub proof fn lemma_at_most_one_leap(chu: Seq<i64>, first_long: int, saku: Seq<i64>)
    ensures
        forall|i: int, j: int|
            0 <= i < 5 && 0 <= j < 5 && spec_month_table(chu, first_long, saku)[i].leap
                && spec_month_table(chu, first_long, saku)[j].leap ==> i == j,
{
}

/// Every table built from ascending new moons and a first term longitude
/// that is a whole multiple of 90 degrees below 360 is well formed: five
/// records, starts taken from the new moons in order, month numbers in
/// 1..=12, the first month never leap and numbered from the first term's
/// longitude, and each later month either advancing the number by one
/// (wrapping 12 to 1) or repeating it as the leap month.
pub proof fn lemma_table_well_formed(chu: Seq<i64>, first_long: int, saku: Seq<i64>)
    requires
        saku.len() == 5,
        0 <= first_long < 360,
        first_long % 90 == 0,
        forall|i: int| 0 <= i < 4 ==> #[trigger] saku[i] < saku[i + 1],
    ensures
        ({
            let t = spec_month_table(chu, first_long, saku);
            &&& t.len() == 5
            &&& forall|k: int| 0 <= k < 5 ==> #[trigger] t[k].start == saku[k]
            &&& forall|k: int| 0 <= k < 4 ==> #[trigger] t[k].start < t[k + 1].start
            &&& forall|k: int| 0 <= k < 5 ==> 1 <= #[trigger] t[k].num <= 12
            &&& !t[0].leap
            &&& t[0].num == first_long / 30 + 2
            &&& forall|k: int|
                0 <= k < 4 ==> ((#[trigger] t[k + 1].num) == wrap12(t[k].num + 1) || (t[k
                    + 1].leap && t[k + 1].num == t[k].num))
        }),
{
}

} // verus!
