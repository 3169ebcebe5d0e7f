use time_tracker::error::TrackerError;
use time_tracker::ledger::{missing_rate_columns, Ledger};

#[test]
fn create_then_fetch() {
    let mut l = Ledger::new();
    let e = l.create_time_entry("Proj".to_string(), 1000, 4600, Some(Some(2000))).unwrap();
    assert_eq!(e.duration, 3600);
    assert_eq!(e.amount, 2000);
    let f = l.fetch_time_entry(e.id).unwrap();
    assert_eq!(f.id, e.id);
    assert_eq!(f.project_name, "Proj");
    assert_eq!(f.start_time, 1000);
    assert_eq!(f.end_time, 4600);
    assert_eq!(f.duration, 3600);
    assert_eq!(f.hourly_rate, 2000);
    assert_eq!(f.amount, 2000);
}

#[test]
fn create_sanitises_name_and_rate() {
    let mut l = Ledger::new();
    let a = l.create_time_entry("  ".to_string(), 0, 60, None).unwrap();
    assert_eq!(a.project_name, "Untitled Task");
    assert_eq!(a.hourly_rate, 0);
    let b = l.create_time_entry(" x ".to_string(), 0, 60, Some(None)).unwrap();
    assert_eq!(b.project_name, "x");
    assert_eq!(b.hourly_rate, 0);
    let c = l.create_time_entry("y".to_string(), 0, 60, Some(Some(-700))).unwrap();
    assert_eq!(c.hourly_rate, 0);
    assert_ne!(a.id, b.id);
    assert_ne!(b.id, c.id);
}

#[test]
fn create_rejects_empty_interval() {
    let mut l = Ledger::new();
    assert_eq!(
        l.create_time_entry("p".to_string(), 500, 500, None).unwrap_err(),
        TrackerError::InvalidInterval
    );
    assert_eq!(
        l.create_time_entry("p".to_string(), 500, 400, None).unwrap_err(),
        TrackerError::InvalidInterval
    );
    assert_eq!(
        l.create_time_entry("p".to_string(), i64::MIN, i64::MAX, None).unwrap_err(),
        TrackerError::InvalidInterval
    );
    assert_eq!(l.len(), 0);
}

#[test]
fn fetch_unknown_id() {
    let l = Ledger::new();
    assert_eq!(l.fetch_time_entry(7).unwrap_err(), TrackerError::NotFound);
}

#[test]
fn overlapping_intervals_are_found() {
    let mut l = Ledger::new();
    let a = l.create_time_entry("a".to_string(), 100, 200, None).unwrap();
    let b = l.create_time_entry("b".to_string(), 150, 250, None).unwrap();
    let from_a = l.check_overlapping_entries(a.id, 100, 200);
    assert_eq!(from_a.len(), 1);
    assert_eq!(from_a[0].id, b.id);
    let from_b = l.check_overlapping_entries(b.id, 150, 250);
    assert_eq!(from_b.len(), 1);
    assert_eq!(from_b[0].id, a.id);
}

#[test]
fn touching_intervals_do_not_overlap() {
    let mut l = Ledger::new();
    let a = l.create_time_entry("a".to_string(), 100, 200, None).unwrap();
    let b = l.create_time_entry("b".to_string(), 200, 300, None).unwrap();
    assert!(l.check_overlapping_entries(a.id, 100, 200).is_empty());
    assert!(l.check_overlapping_entries(b.id, 200, 300).is_empty());
}

#[test]
fn overlaps_come_earliest_first() {
    let mut l = Ledger::new();
    let late = l.create_time_entry("late".to_string(), 300, 400, None).unwrap();
    let early = l.create_time_entry("early".to_string(), 100, 350, None).unwrap();
    let r = l.check_overlapping_entries(0, 320, 330);
    assert_eq!(r.len(), 2);
    assert_eq!(r[0].id, early.id);
    assert_eq!(r[1].id, late.id);
}

#[test]
fn update_recomputes_end_and_amount() {
    let mut l = Ledger::new();
    let e = l.create_time_entry("p".to_string(), 1000, 2000, Some(Some(3600))).unwrap();
    let u = l.update_time_entry(e.id, Some(" q ".to_string()), Some(Some(7200)), Some(1800)).unwrap();
    assert!(u.overlap_warning.is_none());
    assert_eq!(u.entry.project_name, "q");
    assert_eq!(u.entry.start_time, 1000);
    assert_eq!(u.entry.end_time, 2800);
    assert_eq!(u.entry.duration, 1800);
    assert_eq!(u.entry.hourly_rate, 7200);
    assert_eq!(u.entry.amount, 3600);
    let f = l.fetch_time_entry(e.id).unwrap();
    assert_eq!(f.end_time, 2800);
    assert_eq!(f.amount, 3600);
}

#[test]
fn update_keeps_omitted_fields() {
    let mut l = Ledger::new();
    let e = l.create_time_entry("p".to_string(), 0, 3600, Some(Some(1000))).unwrap();
    let u = l.update_time_entry(e.id, None, None, None).unwrap();
    assert_eq!(u.entry.project_name, "p");
    assert_eq!(u.entry.hourly_rate, 1000);
    assert_eq!(u.entry.duration, 3600);
    assert_eq!(u.entry.amount, 1000);
}

#[test]
fn update_warns_of_overlap_but_writes() {
    let mut l = Ledger::new();
    let a = l.create_time_entry("a".to_string(), 100, 200, None).unwrap();
    let b = l.create_time_entry("b".to_string(), 250, 300, None).unwrap();
    let u = l.update_time_entry(a.id, None, None, Some(200)).unwrap();
    let w = u.overlap_warning.unwrap();
    assert_eq!(w.overlapping_entries.len(), 1);
    assert_eq!(w.overlapping_entries[0].id, b.id);
    assert_eq!(l.fetch_time_entry(a.id).unwrap().end_time, 300);
}

#[test]
fn update_errors() {
    let mut l = Ledger::new();
    assert_eq!(l.update_time_entry(3, None, None, None).unwrap_err(), TrackerError::NotFound);
    let e = l.create_time_entry("p".to_string(), 100, 200, None).unwrap();
    assert_eq!(
        l.update_time_entry(e.id, None, None, Some(0)).unwrap_err(),
        TrackerError::InvalidInterval
    );
    assert_eq!(
        l.update_time_entry(e.id, None, None, Some(i64::MAX)).unwrap_err(),
        TrackerError::InvalidInterval
    );
    assert_eq!(l.fetch_time_entry(e.id).unwrap().end_time, 200);
}

#[test]
fn delete_is_idempotent() {
    let mut l = Ledger::new();
    let e = l.create_time_entry("p".to_string(), 100, 200, None).unwrap();
    l.delete_time_entry(e.id);
    assert_eq!(l.len(), 0);
    l.delete_time_entry(e.id);
    assert_eq!(l.len(), 0);
    assert_eq!(l.fetch_time_entry(e.id).unwrap_err(), TrackerError::NotFound);
}

#[test]
fn window_is_half_open() {
    let mut l = Ledger::new();
    let lo = 1_700_000_000;
    let hi = lo + 86400;
    let on_lower = l.create_time_entry("lower".to_string(), lo, lo + 60, None).unwrap();
    l.create_time_entry("upper".to_string(), hi, hi + 60, None).unwrap();
    l.create_time_entry("before".to_string(), lo - 60, lo - 1, None).unwrap();
    let r = l.query_entries_between(lo, hi);
    assert_eq!(r.len(), 1);
    assert_eq!(r[0].id, on_lower.id);
}

#[test]
fn range_query_is_latest_first() {
    let mut l = Ledger::new();
    l.create_time_entry("b".to_string(), 200, 260, None).unwrap();
    l.create_time_entry("a".to_string(), 100, 160, None).unwrap();
    l.create_time_entry("c".to_string(), 300, 360, None).unwrap();
    let r = l.query_entries_between(0, 1000);
    let starts: Vec<i64> = r.iter().map(|e| e.start_time).collect();
    assert_eq!(starts, vec![300, 200, 100]);
    let asc = l.entries_between_ascending(0, 1000);
    let starts: Vec<i64> = asc.iter().map(|e| e.start_time).collect();
    assert_eq!(starts, vec![100, 200, 300]);
    let inv = l.invoice_entries(Some((150, 1000)));
    let starts: Vec<i64> = inv.iter().map(|e| e.start_time).collect();
    assert_eq!(starts, vec![200, 300]);
    assert_eq!(l.invoice_entries(None).len(), 3);
    assert_eq!(l.all_entries().len(), 3);
}

#[test]
fn window_totals() {
    let mut l = Ledger::new();
    l.create_time_entry("a".to_string(), 0, 1800, Some(Some(1000))).unwrap();
    l.create_time_entry("b".to_string(), 2000, 5600, Some(Some(1000))).unwrap();
    l.create_time_entry("c".to_string(), 9000, 9600, Some(Some(1000))).unwrap();
    let t = l.query_totals_between(0, 9000).unwrap();
    assert_eq!(t.total_seconds, 5400);
    assert_eq!(t.total_amount, 1500);
    let none = l.query_totals_between(100, 200).unwrap();
    assert_eq!(none.total_seconds, 0);
    assert_eq!(none.total_amount, 0);
}

#[test]
fn last_rate_is_of_latest_start() {
    let mut l = Ledger::new();
    assert_eq!(l.last_used_hourly_rate(), 0);
    l.create_time_entry("late".to_string(), 500, 600, Some(Some(4000))).unwrap();
    l.create_time_entry("early".to_string(), 100, 200, Some(Some(1000))).unwrap();
    assert_eq!(l.last_used_hourly_rate(), 4000);
}

#[test]
fn stored_rows_are_taken_back() {
    let mut l = Ledger::new();
    let e = l.restore_entry(41, "old".to_string(), 0, 7200, 500).unwrap();
    assert_eq!(e.duration, 7200);
    assert_eq!(e.amount, 1000);
    assert_eq!(
        l.restore_entry(41, "dup".to_string(), 0, 10, 0).unwrap_err(),
        TrackerError::StorageUnavailable
    );
    assert_eq!(
        l.restore_entry(0, "zero".to_string(), 0, 10, 0).unwrap_err(),
        TrackerError::StorageUnavailable
    );
    assert_eq!(
        l.restore_entry(50, "bad".to_string(), 10, 10, 0).unwrap_err(),
        TrackerError::InvalidInterval
    );
    let next = l.create_time_entry("new".to_string(), 0, 10, None).unwrap();
    assert!(next.id > 41);
}

#[test]
fn ids_run_out() {
    let mut l = Ledger::new();
    l.restore_entry(i64::MAX - 1, "last".to_string(), 0, 10, 0).unwrap();
    assert_eq!(
        l.create_time_entry("more".to_string(), 0, 10, None).unwrap_err(),
        TrackerError::StorageUnavailable
    );
}

#[test]
fn schema_probe() {
    let all = vec!["id".to_string(), "hourly_rate".to_string(), "amount".to_string()];
    let r = missing_rate_columns(&all);
    assert!(!r.add_hourly_rate);
    assert!(!r.add_amount);
    let old = vec!["id".to_string(), "duration".to_string()];
    let r = missing_rate_columns(&old);
    assert!(r.add_hourly_rate);
    assert!(r.add_amount);
}
