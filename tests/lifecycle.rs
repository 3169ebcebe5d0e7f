use time_tracker::error::TrackerError;
use time_tracker::ledger::Ledger;
use time_tracker::mirror::{clear_active_timer, load_active_timer, persist_active_timer, ActiveTimerMirror};
use time_tracker::timer::{build_status_text, ActiveTimer, TimerState};
use time_tracker::tracker::Tracker;

#[test]
fn second_start_fails_and_keeps_first() {
    let mut t = Tracker::new();
    t.start_timer_internal("a".to_string(), Some(100), 1000).unwrap();
    assert_eq!(
        t.start_timer_internal("b".to_string(), Some(200), 2000).unwrap_err(),
        TrackerError::AlreadyRunning
    );
    let s = t.timer.status_at(3000);
    assert_eq!(s.start_time, Some(1000));
    assert_eq!(s.project_name.as_deref(), Some("a"));
    assert_eq!(s.hourly_rate, Some(100));
    assert_eq!(s.elapsed_seconds, Some(2000));
}

#[test]
fn stop_while_idle_fails() {
    let mut t = Tracker::new();
    assert_eq!(t.stop_timer_internal(5).unwrap_err(), TrackerError::NotRunning);
    assert_eq!(t.ledger.len(), 0);
}

#[test]
fn start_then_stop_records_one_entry() {
    let mut t = Tracker::new();
    let s = t.start_timer_internal("  Design  ".to_string(), Some(-5), 1000).unwrap();
    assert!(s.is_running);
    assert_eq!(s.elapsed_seconds, Some(0));
    assert!(load_active_timer(&t.mirror).is_some());
    let e = t.stop_timer_internal(1000).unwrap().unwrap();
    assert_eq!(e.project_name, "Design");
    assert_eq!(e.hourly_rate, 0);
    assert_eq!(e.start_time, 1000);
    assert_eq!(e.end_time, 1001);
    assert_eq!(t.ledger.len(), 1);
    assert!(load_active_timer(&t.mirror).is_none());
    assert!(!t.timer.status_at(2000).is_running);
}

#[test]
fn stop_uses_the_stop_instant() {
    let mut t = Tracker::new();
    t.start_timer_internal("p".to_string(), Some(1000), 1000).unwrap();
    let e = t.stop_timer_internal(2800).unwrap().unwrap();
    assert_eq!(e.end_time, 2800);
    assert_eq!(e.duration, 1800);
    assert_eq!(e.amount, 500);
    let f = t.ledger.fetch_time_entry(e.id).unwrap();
    assert_eq!(f.amount, 500);
}

#[test]
fn recovery_after_restart() {
    let mut t = Tracker::new();
    t.start_timer_internal("Report".to_string(), Some(4200), 1234).unwrap();
    let Tracker { ledger, mirror, .. } = t;
    let mut fresh = Tracker::from_storage(ledger, mirror);
    assert!(!fresh.timer.status_at(2000).is_running);
    let s = fresh.restore_active_timer(2000).unwrap();
    assert!(s.is_running);
    assert_eq!(s.project_name.as_deref(), Some("Report"));
    assert_eq!(s.start_time, Some(1234));
    assert_eq!(s.hourly_rate, Some(4200));
    assert_eq!(s.elapsed_seconds, Some(766));
}

#[test]
fn recovery_without_mirror_does_nothing() {
    let mut t = Tracker::new();
    assert!(t.restore_active_timer(10).is_none());
    assert!(!t.timer.status_at(10).is_running);
}

#[test]
fn tray_start_uses_last_rate() {
    let mut t = Tracker::new();
    t.ledger.create_time_entry("x".to_string(), 0, 10, Some(Some(9900))).unwrap();
    let s = t.start_timer_from_tray("   ".to_string(), 50).unwrap();
    assert_eq!(s.project_name.as_deref(), Some("Quick Task"));
    assert_eq!(s.hourly_rate, Some(9900));
}

#[test]
fn elapsed_is_clamped() {
    let mut st = TimerState::new();
    st.start("p".to_string(), 1000, 0).unwrap();
    assert_eq!(st.status_at(900).elapsed_seconds, Some(0));
    assert_eq!(st.status_at(1500).elapsed_seconds, Some(500));
    let mut far = TimerState::new();
    far.start("p".to_string(), i64::MIN, 0).unwrap();
    assert_eq!(far.status_at(i64::MAX).elapsed_seconds, Some(i64::MAX));
}

#[test]
fn timer_state_transitions() {
    let mut st = TimerState::new();
    assert!(st.take_active().is_none());
    st.restore(ActiveTimer { project_name: "r".to_string(), start_time: 5, hourly_rate: 1 });
    let a = st.take_active().unwrap();
    assert_eq!(a.start_time, 5);
    assert!(st.take_active().is_none());
    st.start("s".to_string(), 7, 0).unwrap();
    st.clear();
    assert!(!st.status_at(8).is_running);
}

#[test]
fn mirror_round_trip() {
    let mut m = ActiveTimerMirror::new();
    assert!(load_active_timer(&m).is_none());
    let t = ActiveTimer { project_name: "m".to_string(), start_time: 99, hourly_rate: 12 };
    persist_active_timer(&mut m, &t);
    let back = load_active_timer(&m).unwrap();
    assert_eq!(back.project_name, "m");
    assert_eq!(back.start_time, 99);
    assert_eq!(back.hourly_rate, 12);
    clear_active_timer(&mut m);
    assert!(load_active_timer(&m).is_none());
}

#[test]
fn status_text() {
    let mut st = TimerState::new();
    assert_eq!(build_status_text(&st.status_at(0)), "Status: No timer running");
    st.start("Docs".to_string(), 0, 0).unwrap();
    assert_eq!(build_status_text(&st.status_at(3725)), "Running: Docs (01:02:05)");
}

#[test]
fn clock_driven_operations() {
    let mut t = Tracker::new();
    t.start_timer("live".to_string(), Some(100)).unwrap();
    let s = t.get_timer_status().unwrap();
    assert!(s.is_running);
    assert!(s.elapsed_seconds.unwrap() >= 0);
    let e = t.stop_timer().unwrap().unwrap();
    assert!(e.end_time > e.start_time);
    match t.ledger.get_today_entries() {
        Ok(v) => assert!(v.len() <= 1),
        Err(err) => assert_eq!(err, TrackerError::AmbiguousLocalTime),
    }
    match t.ledger.get_today_total() {
        Ok(Some(tot)) => assert!(tot.total_seconds >= 0),
        Ok(None) => panic!("totals of one entry fit"),
        Err(err) => assert_eq!(err, TrackerError::AmbiguousLocalTime),
    }
    let _ = Ledger::new();
}

#[test]
fn status_by_the_clock() {
    let mut st = TimerState::new();
    assert!(!st.status().unwrap().is_running);
    st.start("p".to_string(), 0, 0).unwrap();
    let s = st.status().unwrap();
    assert!(s.elapsed_seconds.unwrap() > 1_000_000_000);
}

#[test]
fn failed_mirror_write_is_undone() {
    let mut t = Tracker::new();
    t.start_timer_internal("p".to_string(), None, 10).unwrap();
    t.rollback_start(None);
    assert!(!t.timer.status_at(20).is_running);
    assert!(load_active_timer(&t.mirror).is_none());
    let kept = ActiveTimer { project_name: "old".to_string(), start_time: 3, hourly_rate: 0 };
    t.start_timer_internal("q".to_string(), None, 30).unwrap();
    t.rollback_start(Some(kept));
    assert_eq!(load_active_timer(&t.mirror).unwrap().project_name, "old");
}

#[test]
fn start_and_stop_refuse_before_reading_the_clock() {
    let mut t = Tracker::new();
    assert_eq!(t.stop_timer().unwrap_err(), TrackerError::NotRunning);
    let idle = t.get_timer_status().unwrap();
    assert!(!idle.is_running);
    t.start_timer_internal("p".to_string(), None, 10).unwrap();
    assert_eq!(t.start_timer("q".to_string(), None).unwrap_err(), TrackerError::AlreadyRunning);
    assert_eq!(t.timer.status_at(10).start_time, Some(10));
}
