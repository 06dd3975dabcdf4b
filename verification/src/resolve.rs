//! Locating a date inside the month table and deriving the final lunisolar
//! record: month, day of month, leap flag, lunar year and rokuyou label.
use vstd::prelude::*;

use crate::rokuyou::getrokuyou;
use crate::rokuyou::rokuyou_index;
use crate::rokuyou::rokuyou_label;
use crate::table::lemma_table_well_formed;
use crate::table::spec_month_table;
use crate::table::wrap12;
use crate::table::MonthRecord;
use crate::Qreki;
use crate::QrekiError;

verus! {

/// Bound on the astronomical day numbers the library works with; the day
/// number of the latest date chrono can represent stays well below it, and
/// it keeps day-of-month counts inside `u32`.
pub const MAX_ASTRO_DAY: i64 = 400000000;

/// Five records whose start days strictly ascend.
pub open spec fn starts_ascending(t: Seq<MonthRecord>) -> bool {
    &&& t.len() == 5
    &&& forall|k: int| 0 <= k < 4 ==> #[trigger] t[k].start < t[k + 1].start
}

/// A well-formed five-month table: month numbers in range, starts ascending
/// whole-day numbers within the working range.
pub open spec fn wf_table(t: Seq<MonthRecord>) -> bool {
    &&& starts_ascending(t)
    &&& forall|k: int| 0 <= k < 5 ==> 1 <= #[trigger] t[k].num <= 12
    &&& forall|k: int| 0 <= k < 5 ==> 0 <= #[trigger] t[k].start <= MAX_ASTRO_DAY
}

/// The slot of the month that contains day `d0`: the last record whose start
/// is at or before `d0`; the first record when `d0` precedes the whole
/// table, the last when it follows it.
pub open spec fn select_slot(t: Seq<MonthRecord>, d0: int) -> int {
    if d0 < t[1].start {
        0
    } else if d0 < t[2].start {
        1
    } else if d0 < t[3].start {
        2
    } else if d0 < t[4].start {
        3
    } else {
        4
    }
}

/// Day of month of `d0`, counted from 1 at the selected month's start.
pub open spec fn day_of_month(t: Seq<MonthRecord>, d0: int) -> int {
    d0 - t[select_slot(t, d0)].start + 1
}

/// Lunar year of the resolved date: the Gregorian year of the input, stepped
/// back by one when a lunar month past the ninth falls before the Gregorian
/// month, so that months 10..12 of the lunar year keep the year in which
/// their lunar new year fell.
pub open spec fn lunar_year(gy: int, gm: int, qm: int) -> int {
    if qm > 9 && qm > gm {
        gy - 1
    } else {
        gy
    }
}

/// Resolves astronomical day `d0` (falling on or after the table's first
/// month start) against a well-formed month table; `gy` and `gm` are the
/// Gregorian year and month that `d0` came from.
pub fn kyureki_from_table(t: &Vec<MonthRecord>, d0: i64, gy: i32, gm: u32) -> (q: Qreki)
    requires
        wf_table(t@),
        t@[0].start <= d0 <= MAX_ASTRO_DAY,
        gy > i32::MIN,
    ensures
        ({
            let s = select_slot(t@, d0 as int);
            &&& q.qm == t@[s].num
            &&& 1 <= q.qm <= 12
            &&& q.ql == t@[s].leap
            &&& q.qd == day_of_month(t@, d0 as int)
            &&& 1 <= q.qd
            &&& q.qy == lunar_year(gy as int, gm as int, t@[s].num as int)
            &&& q.qr@ == rokuyou_label(
                rokuyou_index(t@[s].num as int, day_of_month(t@, d0 as int)),
            )
        }),
{
    let s: usize = if d0 < t[1].start {
        0
    } else if d0 < t[2].start {
        1
    } else if d0 < t[3].start {
        2
    } else if d0 < t[4].start {
        3
    } else {
        4
    };
    let qm: u32 = t[s].num as u32;
    let qd: u32 = (d0 - t[s].start + 1) as u32;
    let ql: bool = t[s].leap;
    let qy: i32 = if qm > 9 && qm > gm {
        gy - 1
    } else {
        gy
    };
    let qr: &'static str = getrokuyou(qm, qd);
    Qreki { qy, qm, qd, ql, qr }
}

/// Full resolution with the table and day checks made at run time. A table
/// that is not well formed, or one whose first month starts after the
/// requested day, is the visible symptom of a solver that did not converge,
/// and is reported as such.
pub fn kyureki_checked(t: &Vec<MonthRecord>, d0: i64, gy: i32, gm: u32) -> (r: Result<
    Qreki,
    QrekiError,
>)
    requires
        gy > i32::MIN,
    ensures
        r is Ok <==> (wf_table(t@) && t@[0].start <= d0 <= MAX_ASTRO_DAY),
        r matches Ok(q) ==> ({
            let s = select_slot(t@, d0 as int);
            &&& q.qm == t@[s].num
            &&& 1 <= q.qm <= 12
            &&& q.ql == t@[s].leap
            &&& q.qd == day_of_month(t@, d0 as int)
            &&& 1 <= q.qd
            &&& q.qy == lunar_year(gy as int, gm as int, t@[s].num as int)
            &&& q.qr@ == rokuyou_label(
                rokuyou_index(t@[s].num as int, day_of_month(t@, d0 as int)),
            )
        }),
        r matches Err(e) ==> e == QrekiError::Convergence,
{
    if t.len() != 5 {
        return Err(QrekiError::Convergence);
    }
    let mut k: usize = 0;
    while k < 5
        invariant
            t@.len() == 5,
            k <= 5,
            forall|i: int| 0 <= i < k ==> 1 <= #[trigger] t@[i].num <= 12,
            forall|i: int| 0 <= i < k ==> 0 <= #[trigger] t@[i].start <= MAX_ASTRO_DAY,
        decreases 5 - k,
    {
        if !(1 <= t[k].num && t[k].num <= 12 && 0 <= t[k].start && t[k].start <= MAX_ASTRO_DAY) {
            return Err(QrekiError::Convergence);
        }
        k += 1;
    }
    let mut j: usize = 0;
    while j < 4
        invariant
            t@.len() == 5,
            j <= 4,
            forall|i: int| 0 <= i < j ==> #[trigger] t@[i].start < t@[i + 1].start,
        decreases 4 - j,
    {
        if t[j].start >= t[j + 1].start {
            return Err(QrekiError::Convergence);
        }
        j += 1;
    }
    if d0 < t[0].start || d0 > MAX_ASTRO_DAY {
        return Err(QrekiError::Convergence);
    }
    Ok(kyureki_from_table(t, d0, gy, gm))
}

/// For any well-formed table and any day at or after the table's first month
/// start, the resolved month number lies in 1..=12 and the day of month is
/// at least 1.
pub proof fn lemma_resolution_in_range(t: Seq<MonthRecord>, d0: int)
    requires
        wf_table(t),
        t[0].start <= d0,
    ensures
        1 <= t[select_slot(t, d0)].num <= 12,
        1 <= day_of_month(t, d0),
{
}

/// The selected slot is the month that contains the day: its start is at or
/// before `d0`, and the next month (when the selected one is not the last)
/// starts only after `d0`.
pub proof fn lemma_select_slot_contains(t: Seq<MonthRecord>, d0: int)
    requires
        starts_ascending(t),
        t[0].start <= d0,
    ensures
        ({
            let s = select_slot(t, d0);
            &&& 0 <= s < 5
            &&& t[s].start <= d0
            &&& s < 4 ==> d0 < t[s + 1].start
        }),
{
}

/// Date resolution is continuous: stepping to the next day either advances
/// the day of month by one inside the same record, or rolls over to day 1 of
/// the table's next record — never a gap, never a repeat.
pub proof fn lemma_resolution_continuous(t: Seq<MonthRecord>, d0: int)
    requires
        starts_ascending(t),
        t[0].start <= d0,
    ensures
        ({
            let s = select_slot(t, d0);
            let s2 = select_slot(t, d0 + 1);
            ||| (s2 == s && day_of_month(t, d0 + 1) == day_of_month(t, d0) + 1)
            ||| (s2 == s + 1 && day_of_month(t, d0 + 1) == 1)
        }),
{
}

/// Continuity through a whole built table: stepping a day either advances
/// the day of month by one inside the same month, or starts day 1 of the
/// table's next month, whose number advances by one (wrapping 12 to 1)
/// unless that month is the leap month, which repeats the number.
pub proof fn lemma_conversion_continuous(chu: Seq<i64>, first_long: int, saku: Seq<i64>, d0: int)
    requires
        saku.len() == 5,
        0 <= first_long < 360,
        first_long % 90 == 0,
        forall|i: int| 0 <= i < 4 ==> #[trigger] saku[i] < saku[i + 1],
        saku[0] <= d0,
    ensures
        ({
            let t = spec_month_table(chu, first_long, saku);
            let s = select_slot(t, d0);
            let s2 = select_slot(t, d0 + 1);
            ||| (s2 == s && day_of_month(t, d0 + 1) == day_of_month(t, d0) + 1)
            ||| (s2 == s + 1 && day_of_month(t, d0 + 1) == 1 && (t[s2].num == wrap12(
                t[s].num + 1,
            ) || (t[s2].leap && t[s2].num == t[s].num)))
        }),
{
    let t = spec_month_table(chu, first_long, saku);
    lemma_table_well_formed(chu, first_long, saku);
    lemma_resolution_continuous(t, d0);
}

} // verus!
