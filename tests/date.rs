use tzdate::date::{from_local_date, from_utc_date, ymd_opt, Date};
use tzdate::datetime::DateTime;
use tzdate::duration::Duration;
use tzdate::fixed::{FixedOffset, Utc};
use tzdate::naive_date::{NaiveDate, Weekday};
use tzdate::naive_datetime::NaiveDateTime;
use tzdate::naive_time::NaiveTime;
use tzdate::offset::{LocalResult, Offset, OffsetState};

// Same as UTC but with an offset of 365 days.
#[derive(Copy, Clone, PartialEq, Eq, Debug)]
struct Utc1y;

#[derive(Copy, Clone, PartialEq, Eq, Debug)]
struct OneYear;

impl OffsetState for OneYear {
    fn local_minus_utc(&self) -> Duration {
        Duration::days(365)
    }
}

impl Offset for Utc1y {
    type State = OneYear;

    fn from_state(_state: &OneYear) -> Utc1y {
        Utc1y
    }
    fn state_from_utc_date(&self, _utc: &NaiveDate) -> OneYear {
        OneYear
    }
    fn state_from_local_date(&self, _local: &NaiveDate) -> LocalResult<OneYear> {
        LocalResult::Single(OneYear)
    }
    fn state_from_utc_datetime(&self, _utc: &NaiveDateTime) -> OneYear {
        OneYear
    }
    fn state_from_local_datetime(&self, _local: &NaiveDateTime) -> LocalResult<OneYear> {
        LocalResult::Single(OneYear)
    }
}

// A zone in which every local value falls in an overlap.
#[derive(Copy, Clone, PartialEq, Eq, Debug)]
struct Folded;

impl OffsetState for Folded {
    fn local_minus_utc(&self) -> Duration {
        Duration::zero()
    }
}

impl Offset for Folded {
    type State = Folded;

    fn from_state(_state: &Folded) -> Folded {
        Folded
    }
    fn state_from_utc_date(&self, _utc: &NaiveDate) -> Folded {
        Folded
    }
    fn state_from_local_date(&self, _local: &NaiveDate) -> LocalResult<Folded> {
        LocalResult::Ambiguous(Folded, Folded)
    }
    fn state_from_utc_datetime(&self, _utc: &NaiveDateTime) -> Folded {
        Folded
    }
    fn state_from_local_datetime(&self, _local: &NaiveDateTime) -> LocalResult<Folded> {
        LocalResult::Ambiguous(Folded, Folded)
    }
}

// A zone in which every local value falls in a gap.
#[derive(Copy, Clone, PartialEq, Eq, Debug)]
struct Skipped;

impl OffsetState for Skipped {
    fn local_minus_utc(&self) -> Duration {
        Duration::zero()
    }
}

impl Offset for Skipped {
    type State = Skipped;

    fn from_state(_state: &Skipped) -> Skipped {
        Skipped
    }
    fn state_from_utc_date(&self, _utc: &NaiveDate) -> Skipped {
        Skipped
    }
    fn state_from_local_date(&self, _local: &NaiveDate) -> LocalResult<Skipped> {
        LocalResult::Nonexistent
    }
    fn state_from_utc_datetime(&self, _utc: &NaiveDateTime) -> Skipped {
        Skipped
    }
    fn state_from_local_datetime(&self, _local: &NaiveDateTime) -> LocalResult<Skipped> {
        LocalResult::Nonexistent
    }
}

fn render_date(d: &NaiveDate) -> String {
    format!("{:04}-{:02}-{:02}", d.year(), d.month(), d.day())
}

fn render_one_year_date(d: &Date<Utc1y>) -> String {
    format!("{}+8760:00", render_date(&d.naive_local()))
}

fn render_one_year_datetime(d: &DateTime<Utc1y>) -> String {
    let local = d.naive_local();
    let t = local.time();
    format!(
        "{}T{:02}:{:02}:{:02}+8760:00",
        render_date(&local.date()),
        t.hour(),
        t.minute(),
        t.second()
    )
}

fn ymd<Off: Offset>(tz: &Off, y: i32, m: u32, d: u32) -> Date<Off> {
    ymd_opt(tz, y, m, d).single().unwrap()
}

fn naive(y: i32, m: u32, d: u32) -> NaiveDate {
    NaiveDate::from_ymd_opt(y, m, d).unwrap()
}

fn east(secs: i32) -> FixedOffset {
    FixedOffset::east_opt(secs).unwrap()
}

#[test]
fn test_date_weird_offset() {
    assert_eq!(render_one_year_date(&ymd(&Utc1y, 2012, 2, 29)), "2012-02-29+8760:00".to_string());
    assert_eq!(
        render_one_year_datetime(&ymd(&Utc1y, 2012, 2, 29).and_hms(5, 6, 7)),
        "2012-02-29T05:06:07+8760:00".to_string()
    );
    assert_eq!(render_one_year_date(&ymd(&Utc1y, 2012, 3, 4)), "2012-03-04+8760:00".to_string());
    assert_eq!(
        render_one_year_datetime(&ymd(&Utc1y, 2012, 3, 4).and_hms(5, 6, 7)),
        "2012-03-04T05:06:07+8760:00".to_string()
    );
}

#[test]
fn one_year_offset_keeps_utc_a_year_behind() {
    let d = ymd(&Utc1y, 2012, 2, 29);
    assert_eq!(d.naive_utc(), naive(2011, 3, 1));
    assert_eq!(d.naive_local(), naive(2012, 2, 29));
    let dt = d.and_hms(5, 6, 7);
    let utc = dt.naive_utc();
    assert_eq!(utc.date(), naive(2011, 3, 1));
    assert_eq!(utc.time(), NaiveTime::from_hms_opt(5, 6, 7).unwrap());
}

#[test]
fn one_year_offset_utc_succ_over_leap_day() {
    let d = from_utc_date(&Utc1y, &naive(2012, 2, 28));
    let next = d.succ();
    assert_eq!(next.naive_utc(), naive(2012, 2, 29));
    assert_eq!(render_one_year_date(&next), "2013-02-28+8760:00".to_string());
    assert_eq!(render_one_year_date(&next.succ()), "2013-03-01+8760:00".to_string());
}

#[test]
fn naive_date_fields() {
    let d = naive(2012, 2, 29);
    assert_eq!((d.year(), d.month(), d.day()), (2012, 2, 29));
    assert_eq!((d.month0(), d.day0()), (1, 28));
    assert_eq!(d.ordinal(), 60);
    assert_eq!(d.ordinal0(), 59);
    assert_eq!(d.weekday(), Weekday::Wed);
    assert_eq!(naive(1, 1, 1).weekday(), Weekday::Mon);
    assert_eq!(naive(1, 1, 1).day_number(), 0);
    assert_eq!(naive(1970, 1, 1).day_number(), 719162);
    assert_eq!(naive(1970, 1, 1).weekday(), Weekday::Thu);
    assert_eq!(naive(0, 12, 31).day_number(), -1);
    assert_eq!(naive(-1, 3, 1).ymd(), (-1, 3, 1));
    assert_eq!(naive(2000, 12, 31).ordinal(), 366);
}

#[test]
fn naive_date_rejects_invalid_fields() {
    assert!(NaiveDate::from_ymd_opt(2011, 2, 29).is_none());
    assert!(NaiveDate::from_ymd_opt(1900, 2, 29).is_none());
    assert!(NaiveDate::from_ymd_opt(2000, 2, 29).is_some());
    assert!(NaiveDate::from_ymd_opt(2012, 13, 1).is_none());
    assert!(NaiveDate::from_ymd_opt(2012, 4, 31).is_none());
    assert!(NaiveDate::from_ymd_opt(2012, 0, 1).is_none());
    assert!(NaiveDate::from_ymd_opt(262144, 1, 1).is_none());
    assert!(NaiveDate::from_ymd_opt(-262145, 12, 31).is_none());
}

#[test]
fn naive_date_range_bounds() {
    let min = NaiveDate::min_value();
    let max = NaiveDate::max_value();
    assert_eq!(min.ymd(), (-262144, 1, 1));
    assert_eq!(max.ymd(), (262143, 12, 31));
    assert!(min.pred_opt().is_none());
    assert!(max.succ_opt().is_none());
    assert_eq!(min.succ_opt().unwrap().ymd(), (-262144, 1, 2));
}

#[test]
fn naive_date_field_edits() {
    let d = naive(2012, 2, 29);
    assert!(d.with_year(2013).is_none());
    assert_eq!(d.with_year(2016), Some(naive(2016, 2, 29)));
    assert_eq!(d.with_month(3), Some(naive(2012, 3, 29)));
    assert!(d.with_month(13).is_none());
    assert_eq!(d.with_month0(0), Some(naive(2012, 1, 29)));
    assert_eq!(d.with_day(1), Some(naive(2012, 2, 1)));
    assert!(d.with_day(30).is_none());
    assert_eq!(d.with_day0(0), Some(naive(2012, 2, 1)));
    assert_eq!(d.with_ordinal(366), Some(naive(2012, 12, 31)));
    assert!(naive(2011, 1, 1).with_ordinal(366).is_none());
    assert_eq!(d.with_ordinal0(0), Some(naive(2012, 1, 1)));
}

#[test]
fn naive_date_add_truncates_toward_zero() {
    let d = naive(2012, 3, 1);
    assert_eq!(d.checked_add(&Duration::seconds(86399)), Some(d));
    assert_eq!(d.checked_add(&Duration::seconds(-86399)), Some(d));
    assert_eq!(d.checked_add(&Duration::seconds(-86400)), Some(naive(2012, 2, 29)));
    assert_eq!(d.checked_add(&Duration::days(365)), Some(naive(2013, 3, 1)));
    assert!(NaiveDate::max_value().checked_add(&Duration::days(1)).is_none());
    assert_eq!(naive(2012, 3, 1).signed_duration_since(&naive(2012, 2, 28)), Duration::days(2));
}

#[test]
fn duration_values() {
    assert_eq!(Duration::hours(8760), Duration::days(365));
    assert_eq!(Duration::days(2).num_seconds(), 172800);
    assert_eq!(Duration::seconds(-1).num_days(), 0);
    assert_eq!(Duration::seconds(-86401).num_days(), -1);
    assert_eq!(Duration::seconds(5).neg(), Duration::seconds(-5));
}

#[test]
fn naive_time_fields() {
    let t = NaiveTime::from_hms_nano_opt(23, 59, 59, 1_999_999_999).unwrap();
    assert_eq!((t.hour(), t.minute(), t.second(), t.nanosecond()), (23, 59, 59, 1_999_999_999));
    assert!(NaiveTime::from_hms_opt(24, 0, 0).is_none());
    assert!(NaiveTime::from_hms_opt(0, 60, 0).is_none());
    assert!(NaiveTime::from_hms_opt(0, 0, 60).is_none());
    assert!(NaiveTime::from_hms_milli_opt(0, 0, 0, 2000).is_none());
    assert_eq!(NaiveTime::from_hms_milli_opt(0, 0, 0, 1500).unwrap().nanosecond(), 1_500_000_000);
    assert!(NaiveTime::from_hms_micro_opt(0, 0, 0, 2_000_000).is_none());
    assert_eq!(NaiveTime::from_hms_micro_opt(0, 0, 0, 7).unwrap().nanosecond(), 7_000);
    assert!(NaiveTime::from_hms_nano_opt(0, 0, 0, 2_000_000_000).is_none());
}

#[test]
fn naive_datetime_add_carries_days() {
    let dt = NaiveDateTime::new(naive(2012, 2, 28), NaiveTime::from_hms_opt(23, 0, 0).unwrap());
    let later = dt.checked_add_signed(&Duration::hours(2)).unwrap();
    assert_eq!(later.date(), naive(2012, 2, 29));
    assert_eq!(later.time(), NaiveTime::from_hms_opt(1, 0, 0).unwrap());
    let earlier = dt.checked_add_signed(&Duration::hours(-24)).unwrap();
    assert_eq!(earlier.date(), naive(2012, 2, 27));
    assert_eq!(earlier.time(), NaiveTime::from_hms_opt(23, 0, 0).unwrap());
}

#[test]
fn local_result_collapse() {
    let a: LocalResult<u32> = LocalResult::Ambiguous(1, 2);
    assert_eq!(a.single(), None);
    assert_eq!(a.earliest(), Some(1));
    assert_eq!(a.latest(), Some(2));
    let s: LocalResult<u32> = LocalResult::Single(3);
    assert_eq!(s.single(), Some(3));
    let n: LocalResult<u32> = LocalResult::Nonexistent;
    assert_eq!(n.earliest(), None);
}

#[test]
fn fixed_offset_bounds() {
    assert!(FixedOffset::east_opt(86400).is_none());
    assert!(FixedOffset::west_opt(-86400).is_none());
    assert_eq!(FixedOffset::east_opt(-3600).unwrap(), FixedOffset::west_opt(3600).unwrap());
    assert_eq!(east(32400).local_minus_utc(), Duration::hours(9));
}

#[test]
fn with_timezone_round_trip() {
    let tz1 = east(9 * 3600);
    let tz2 = east(-5 * 3600);
    let d = from_utc_date(&tz1, &naive(2014, 5, 6));
    let there = d.with_timezone(&tz2);
    assert_eq!(there.naive_utc(), naive(2014, 5, 6));
    assert_eq!(*there.offset(), tz2);
    let back = there.with_timezone(&tz1);
    assert!(back.eq(&d));
    assert_eq!(back.naive_utc(), d.naive_utc());
    assert_eq!(*back.offset(), *d.offset());
    let via_utc = d.with_timezone(&Utc).with_timezone(&tz1);
    assert_eq!(*via_utc.offset(), tz1);
}

#[test]
fn equality_ignores_offset() {
    let u = naive(2014, 5, 6);
    let a = Date::<FixedOffset>::from_utc(u, east(3600));
    let b = Date::<FixedOffset>::from_utc(u, east(-7200));
    assert!(a.eq(&b));
    let c = Date::<Utc1y>::from_utc(u, OneYear);
    assert!(a.eq(&c));
    assert_ne!(a.naive_local(), c.naive_local());
    assert_eq!(c.naive_local(), naive(2015, 5, 6));
    let later = Date::<FixedOffset>::from_utc(naive(2014, 5, 7), east(3600));
    assert!(!a.eq(&later));
    assert_eq!(a.cmp(&later), std::cmp::Ordering::Less);
    assert_eq!(later.partial_cmp(&a), Some(std::cmp::Ordering::Greater));
    assert_eq!(a.cmp(&b), std::cmp::Ordering::Equal);
}

#[test]
fn succ_pred_inverse() {
    let d = ymd(&east(3600), 2012, 2, 28);
    assert!(d.succ().pred().eq(&d));
    assert!(d.pred().succ().eq(&d));
    assert_eq!(d.succ().naive_local(), naive(2012, 2, 29));
    assert_eq!(*d.succ().offset(), *d.offset());
    assert_eq!(d.pred().naive_local(), naive(2012, 2, 27));
}

#[test]
fn succ_pred_at_range_ends() {
    assert!(Date::<Utc>::max_value().succ_opt().is_none());
    assert!(Date::<Utc>::min_value().pred_opt().is_none());
    assert!(Date::<Utc>::max_value().pred_opt().is_some());
    let near_end = Date::<Utc1y>::from_utc(naive(262142, 12, 31), OneYear);
    assert!(near_end.succ_opt().is_none());
}

#[test]
fn arithmetic_consistency() {
    let d = ymd(&east(-3600), 2012, 2, 29);
    let k = Duration::days(400);
    let sum = d.clone().add(k);
    assert_eq!(sum.naive_utc(), naive(2013, 4, 4));
    assert!(sum.clone().sub(k).eq(&d));
    assert_eq!(sum.clone().sub_date(d.clone()), k);
    assert_eq!(*sum.offset(), *d.offset());
    let back = d.clone().sub(Duration::days(1));
    assert_eq!(back.naive_utc(), naive(2012, 2, 28));
    assert_eq!(d.clone().add(Duration::seconds(3600)).naive_utc(), d.naive_utc());
}

#[test]
fn with_month_thirteen_fails() {
    assert!(ymd(&Utc, 2012, 2, 29).with_month(13).is_none());
    assert!(ymd(&east(3600), 1, 1, 1).with_month(13).is_none());
    assert!(ymd(&Utc1y, 2012, 2, 29).with_month(13).is_none());
    assert!(ymd(&Utc, 2012, 1, 31).with_month0(12).is_none());
}

#[test]
fn field_edits_through_zone() {
    let d = ymd(&east(3600), 2012, 2, 29);
    assert_eq!(d.with_year(2016).unwrap().naive_local(), naive(2016, 2, 29));
    assert!(d.with_year(2013).is_none());
    assert_eq!(d.with_month(3).unwrap().naive_local(), naive(2012, 3, 29));
    assert_eq!(d.with_month0(0).unwrap().naive_local(), naive(2012, 1, 29));
    assert_eq!(d.with_day(1).unwrap().naive_local(), naive(2012, 2, 1));
    assert_eq!(d.with_day0(0).unwrap().naive_local(), naive(2012, 2, 1));
    assert_eq!(d.with_ordinal(1).unwrap().naive_local(), naive(2012, 1, 1));
    assert_eq!(d.with_ordinal0(365).unwrap().naive_local(), naive(2012, 12, 31));
    let y = ymd(&Utc1y, 2012, 2, 29);
    let moved = y.with_day(1).unwrap();
    assert_eq!(moved.naive_local(), naive(2012, 2, 1));
    assert_eq!(moved.naive_utc(), naive(2011, 2, 1));
}

#[test]
fn local_accessors() {
    let d = ymd(&Utc1y, 2012, 2, 29);
    assert_eq!((d.year(), d.month(), d.day()), (2012, 2, 29));
    assert_eq!((d.month0(), d.day0()), (1, 28));
    assert_eq!((d.ordinal(), d.ordinal0()), (60, 59));
    assert_eq!(d.weekday(), Weekday::Wed);
    assert_eq!(d.timezone(), Utc1y);
    assert_eq!(d.naive_utc().weekday(), Weekday::Tue);
}

#[test]
fn ambiguous_local_value_yields_none() {
    let d = Date::<Folded>::from_utc(naive(2012, 2, 29), Folded);
    assert!(d.and_hms_opt(5, 6, 7).is_none());
    assert!(d.and_time(NaiveTime::from_hms_opt(0, 0, 0).unwrap()).is_none());
    assert!(d.and_hms_milli_opt(5, 6, 7, 8).is_none());
    assert!(d.and_hms_micro_opt(5, 6, 7, 8).is_none());
    assert!(d.and_hms_nano_opt(5, 6, 7, 8).is_none());
    assert!(d.with_day(1).is_none());
    assert!(ymd_opt(&Folded, 2012, 2, 29).single().is_none());
    match from_local_date(&Folded, &naive(2012, 2, 29)) {
        LocalResult::Ambiguous(a, b) => {
            assert_eq!(a.naive_local(), naive(2012, 2, 29));
            assert_eq!(b.naive_local(), naive(2012, 2, 29));
        }
        _ => panic!("expected two dates"),
    }
}

#[test]
fn gap_local_value_yields_none() {
    let d = Date::<Skipped>::from_utc(naive(2012, 2, 29), Skipped);
    assert!(d.and_hms_opt(5, 6, 7).is_none());
    assert!(d.with_year(2016).is_none());
    assert!(matches!(ymd_opt(&Skipped, 2012, 2, 29), LocalResult::Nonexistent));
}

#[test]
fn and_hms_family() {
    let tz = east(9 * 3600);
    let d = ymd(&tz, 2014, 5, 6);
    let dt = d.and_hms(3, 4, 5);
    let utc = dt.naive_utc();
    assert_eq!(utc.date(), naive(2014, 5, 5));
    assert_eq!(utc.time(), NaiveTime::from_hms_opt(18, 4, 5).unwrap());
    assert_eq!(dt.naive_local().date(), naive(2014, 5, 6));
    assert_eq!(*dt.offset(), tz);
    assert_eq!(dt.timezone(), tz);
    assert!(d.and_hms_opt(24, 0, 0).is_none());
    assert_eq!(d.and_hms_milli(3, 4, 59, 1500).naive_local().time().nanosecond(), 1_500_000_000);
    assert_eq!(d.and_hms_micro(3, 4, 5, 6).naive_local().time().nanosecond(), 6_000);
    assert_eq!(d.and_hms_nano(3, 4, 5, 6).naive_local().time().nanosecond(), 6);
    assert!(d.and_hms_milli_opt(3, 4, 5, 2000).is_none());
    assert!(d.and_hms_micro_opt(3, 4, 5, 2_000_000).is_none());
    assert!(d.and_hms_nano_opt(3, 4, 5, 2_000_000_000).is_none());
}

#[test]
fn fixed_offset_gap_at_range_end() {
    let tz = east(-3600);
    let last = NaiveDateTime::new(NaiveDate::max_value(), NaiveTime::from_hms_opt(23, 30, 0).unwrap());
    assert!(matches!(tz.state_from_local_datetime(&last), LocalResult::Nonexistent));
    let ok = NaiveDateTime::new(NaiveDate::max_value(), NaiveTime::from_hms_opt(22, 30, 0).unwrap());
    assert!(matches!(tz.state_from_local_datetime(&ok), LocalResult::Single(_)));
}

#[test]
fn iso_week_dates() {
    assert_eq!(naive(2012, 2, 29).isoweekdate(), (2012, 9, Weekday::Wed));
    assert_eq!(naive(2012, 1, 1).isoweekdate(), (2011, 52, Weekday::Sun));
    assert_eq!(naive(2008, 12, 29).isoweekdate(), (2009, 1, Weekday::Mon));
    assert_eq!(naive(2004, 12, 31).isoweekdate(), (2004, 53, Weekday::Fri));
    assert_eq!(naive(2010, 1, 3).isoweekdate(), (2009, 53, Weekday::Sun));
    assert_eq!(naive(2010, 1, 4).isoweekdate(), (2010, 1, Weekday::Mon));
    assert_eq!(ymd(&Utc1y, 2012, 2, 29).isoweekdate(), (2012, 9, Weekday::Wed));
}

fn hash_of<T: std::hash::Hash>(v: &T) -> u64 {
    let mut h = std::collections::hash_map::DefaultHasher::new();
    v.hash(&mut h);
    std::hash::Hasher::finish(&h)
}

#[test]
fn hash_follows_utc_day() {
    let u = naive(2014, 5, 6);
    let a = Date::<FixedOffset>::from_utc(u, east(3600));
    let b = Date::<FixedOffset>::from_utc(u, east(-7200));
    assert_eq!(hash_of(&a), hash_of(&b));
    let c = Date::<FixedOffset>::from_utc(naive(2014, 5, 7), east(3600));
    assert_ne!(hash_of(&a), hash_of(&c));
}
