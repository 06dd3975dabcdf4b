// Unit tests of the verified pieces: the rokuyou cycle, the Gregorian
// bridge, alignment and reseed decisions, month-table building and date
// resolution on hand-made tables.
use qreki::{
    build_month_table, check_alignment, getrokuyou, gregorian_to_astro_day, kyureki_checked,
    kyureki_from_table, needs_reseed, Alignment, MonthRecord, QrekiError,
};

#[test]
fn rokuyou_fixed_values() {
    assert_eq!(getrokuyou(1, 1), "先勝");
    assert_eq!(getrokuyou(1, 2), "友引");
    assert_eq!(getrokuyou(2, 1), "友引");
    assert_eq!(getrokuyou(3, 4), "赤口");
    assert_eq!(getrokuyou(12, 30), "大安");
}

#[test]
fn rokuyou_cycles_over_consecutive_days() {
    let labels = ["先勝", "友引", "先負", "仏滅", "大安", "赤口"];
    for m in 1..=12u32 {
        for d in 1..=30u32 {
            let idx = ((m + d - 2) % 6) as usize;
            assert_eq!(getrokuyou(m, d), labels[idx]);
        }
    }
}

#[test]
fn astro_day_of_known_dates() {
    // 0001-01-01 is day 1 of the common era.
    assert_eq!(gregorian_to_astro_day(1, 1, 1), Ok(1 + 1721424));
    // 1970-01-01 is day 719163.
    assert_eq!(gregorian_to_astro_day(1970, 1, 1), Ok(719163 + 1721424));
    assert_eq!(gregorian_to_astro_day(2021, 2, 12), Ok(2459257));
}

#[test]
fn invalid_gregorian_dates() {
    assert_eq!(gregorian_to_astro_day(2021, 2, 29), Err(QrekiError::InvalidDate));
    assert_eq!(gregorian_to_astro_day(2021, 0, 1), Err(QrekiError::InvalidDate));
    assert_eq!(gregorian_to_astro_day(2021, 1, 0), Err(QrekiError::InvalidDate));
    assert_eq!(gregorian_to_astro_day(2021, 13, 1), Err(QrekiError::InvalidDate));
    assert_eq!(gregorian_to_astro_day(400000, 1, 1), Err(QrekiError::InvalidDate));
    // Leap-day rules: 2000 was a leap year, 1900 was not.
    assert!(gregorian_to_astro_day(2000, 2, 29).is_ok());
    assert_eq!(gregorian_to_astro_day(1900, 2, 29), Err(QrekiError::InvalidDate));
}

#[test]
fn year_range_boundaries() {
    // The calendar utility stores years in 19 bits.
    assert!(gregorian_to_astro_day(262142, 12, 31).is_ok());
    assert_eq!(gregorian_to_astro_day(262143, 1, 1), Err(QrekiError::InvalidDate));
    assert!(gregorian_to_astro_day(-262143, 1, 1).is_ok());
    assert_eq!(gregorian_to_astro_day(-262144, 12, 31), Err(QrekiError::InvalidDate));
    // Year zero is a proleptic leap year, one year (minus a leap day) before day 1.
    assert_eq!(gregorian_to_astro_day(0, 1, 1), Ok(-365 + 1721424));
}

#[test]
fn alignment_decisions() {
    assert_eq!(check_alignment(100, 130, 130), Alignment::ShiftLeft);
    assert_eq!(check_alignment(100, 130, 129), Alignment::Keep);
    assert_eq!(check_alignment(100, 130, 100), Alignment::Keep);
    assert_eq!(check_alignment(101, 130, 100), Alignment::ShiftRight);
}

#[test]
fn reseed_decisions() {
    assert!(needs_reseed(1000, 1020));
    assert!(needs_reseed(1000, 1026));
    assert!(!needs_reseed(1000, 1027));
    assert!(needs_reseed(1026, 1000));
    assert!(!needs_reseed(1000, 1030));
}

#[test]
fn table_without_leap_month() {
    // Fifth new moon well past the fourth principal term: no leap month.
    let chu = [115i64, 145, 175, 205];
    let saku = [100i64, 130, 159, 189, 218];
    let t = build_month_table(&chu, 270, &saku);
    let nums: Vec<i64> = t.iter().map(|r| r.num).collect();
    assert_eq!(nums, vec![11, 12, 1, 2, 3]);
    assert!(t.iter().all(|r| !r.leap));
    let starts: Vec<i64> = t.iter().map(|r| r.start).collect();
    assert_eq!(starts, vec![100, 130, 159, 189, 218]);
}

#[test]
fn table_with_leap_month() {
    // The fifth new moon (212) is at or before the fourth principal term
    // (215), so one of the five months must be leap. The second month,
    // spanning days 125..154, contains its term (126), but the third,
    // spanning 154..183, does not (its term falls on 184): the third month
    // is the leap month and repeats its predecessor's number.
    let chu = [100i64, 126, 184, 215];
    let saku = [95i64, 125, 154, 183, 212];
    let t = build_month_table(&chu, 90, &saku);
    assert!(!t[0].leap && !t[1].leap && t[2].leap && !t[3].leap && !t[4].leap);
    let nums: Vec<i64> = t.iter().map(|r| r.num).collect();
    // base month number = 90 / 30 + 2 = 5.
    assert_eq!(nums, vec![5, 6, 6, 7, 8]);
}

#[test]
fn resolve_inside_table() {
    let t = vec![
        MonthRecord { num: 11, leap: false, start: 100 },
        MonthRecord { num: 12, leap: false, start: 130 },
        MonthRecord { num: 1, leap: false, start: 159 },
        MonthRecord { num: 2, leap: false, start: 189 },
        MonthRecord { num: 3, leap: false, start: 218 },
    ];
    // Gregorian month 1 with lunar month 11: the lunar year is stepped back.
    let q = kyureki_from_table(&t, 100, 2000, 1);
    assert_eq!((q.qy, q.qm, q.qd, q.ql), (1999, 11, 1, false));
    let q = kyureki_from_table(&t, 129, 2000, 1);
    assert_eq!((q.qy, q.qm, q.qd, q.ql), (1999, 11, 30, false));
    let q = kyureki_from_table(&t, 130, 2000, 1);
    assert_eq!((q.qy, q.qm, q.qd, q.ql), (1999, 12, 1, false));
    let q = kyureki_from_table(&t, 160, 2000, 2);
    assert_eq!((q.qy, q.qm, q.qd, q.ql), (2000, 1, 2, false));
    assert_eq!(q.qr, getrokuyou(1, 2));
    let q = kyureki_from_table(&t, 220, 2000, 3);
    assert_eq!((q.qy, q.qm, q.qd, q.ql), (2000, 3, 3, false));
}

#[test]
fn checked_resolution_rejects_bad_tables() {
    let good = vec![
        MonthRecord { num: 11, leap: false, start: 100 },
        MonthRecord { num: 12, leap: false, start: 130 },
        MonthRecord { num: 1, leap: false, start: 159 },
        MonthRecord { num: 2, leap: false, start: 189 },
        MonthRecord { num: 3, leap: false, start: 218 },
    ];
    assert!(kyureki_checked(&good, 150, 2000, 1).is_ok());
    // Day before the first month.
    assert!(matches!(kyureki_checked(&good, 99, 2000, 1), Err(QrekiError::Convergence)));
    // Too few records.
    let short = good[..4].to_vec();
    assert!(matches!(kyureki_checked(&short, 150, 2000, 1), Err(QrekiError::Convergence)));
    // Starts out of order.
    let mut unsorted = good.clone();
    unsorted[2].start = 20;
    assert!(matches!(kyureki_checked(&unsorted, 150, 2000, 1), Err(QrekiError::Convergence)));
    // Month number out of range.
    let mut badnum = good.clone();
    badnum[0].num = 13;
    assert!(matches!(kyureki_checked(&badnum, 150, 2000, 1), Err(QrekiError::Convergence)));
}
