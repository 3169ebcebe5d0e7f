use vstd::prelude::*;
use crate::clock::{clock_reading, current_unix_timestamp};
use crate::entry::{EntryView, TimeEntry, entry_of, valid_interval};
use crate::error::TrackerError;
use crate::ledger::{Ledger, has_id, ids_distinct, placed_in_order};
use crate::mirror::{ActiveTimerMirror, clear_active_timer, load_active_timer, persist_active_timer};
use crate::money::{sanitize_hourly_rate, sanitized_rate};
use crate::text::{sanitize_project_name, sanitized_name, tray_name, tray_project_name};
use crate::timer::{
    ActiveTimer, ActiveTimerView, TimerState, TimerStatusPayload, status_matches, timer_view,
};

verus! {

/// The timer that a start with these inputs runs: name and rate sanitised.
pub open spec fn started_timer(project_name: Seq<char>, hourly_rate: Option<i64>, now: i64) -> ActiveTimerView {
    ActiveTimerView {
        project_name: sanitized_name(project_name),
        start_time: now,
        hourly_rate: sanitized_rate(hourly_rate) as u64,
    }
}

/// The end that a stop at `now` gives a timer started at `start`: `now`,
/// but at least one second after the start.
pub open spec fn stop_end(start: i64, now: i64) -> int {
    if now > start {
        now as int
    } else {
        start + 1
    }
}

/// Timer, ledger and mirror together: the timer runs the show, the ledger
/// holds what it produced, the mirror shadows it for crash recovery.
#[derive(Debug)]
pub struct Tracker {
    pub timer: TimerState,
    pub ledger: Ledger,
    pub mirror: ActiveTimerMirror,
}

/// What a start does: from idle, the sanitised timer runs and is mirrored;
/// while running, nothing changes and the start fails.
pub open spec fn start_outcome(
    before: Tracker,
    after: Tracker,
    timer: ActiveTimerView,
    r: Result<TimerStatusPayload, TrackerError>,
) -> bool {
    &&& after.ledger@ == before.ledger@
    &&& after.ledger.wf()
    &&& after.ledger.ids_exhausted() == before.ledger.ids_exhausted()
    &&& if before.timer@ is Some {
        &&& r == Err::<TimerStatusPayload, TrackerError>(TrackerError::AlreadyRunning)
        &&& after.timer@ == before.timer@
        &&& after.mirror@ == before.mirror@
    } else {
        &&& r is Ok
        &&& after.timer@ == Some(timer)
        &&& after.mirror@ == Some(timer)
        &&& status_matches(r->Ok_0, after.timer@, timer.start_time)
    }
}

/// What a stop at `now` does: the timer goes idle whatever follows; its
/// interval is added to the ledger and the mirror cleared, or, where the
/// ledger refuses it, the error comes back and ledger and mirror stay.
pub open spec fn stop_outcome(
    before: Tracker,
    after: Tracker,
    now: i64,
    r: Result<Option<TimeEntry>, TrackerError>,
) -> bool {
    &&& after.ledger.wf()
    &&& match before.timer@ {
        None => {
            &&& r == Err::<Option<TimeEntry>, TrackerError>(TrackerError::NotRunning)
            &&& after.timer@ == before.timer@
            &&& after.ledger@ == before.ledger@
            &&& after.ledger.ids_exhausted() == before.ledger.ids_exhausted()
            &&& after.mirror@ == before.mirror@
        },
        Some(a) => {
            let end = stop_end(a.start_time, now);
            &&& after.timer@ is None
            &&& (end <= i64::MAX && valid_interval(a.start_time as int, end)
                && !before.ledger.ids_exhausted()) ==> r is Ok
            &&& r is Err ==> after.ledger@ == before.ledger@ && after.mirror@ == before.mirror@
                && after.ledger.ids_exhausted() == before.ledger.ids_exhausted()
            &&& r is Ok ==> {
                &&& r->Ok_0 is Some
                &&& r->Ok_0->Some_0@ == entry_of(
                    r->Ok_0->Some_0.id,
                    a.project_name,
                    a.start_time,
                    end as i64,
                    a.hourly_rate,
                )
                &&& placed_in_order(before.ledger@, after.ledger@, r->Ok_0->Some_0@)
                &&& !has_id(before.ledger@, r->Ok_0->Some_0.id)
                &&& after.mirror@ is None
            }
        },
    }
}

/// What recovery at start-up does: a mirrored timer is put back verbatim.
pub open spec fn restore_outcome(
    before: Tracker,
    after: Tracker,
    now: i64,
    r: Option<TimerStatusPayload>,
) -> bool {
    &&& after.ledger@ == before.ledger@
    &&& after.ledger.wf() == before.ledger.wf()
    &&& after.ledger.ids_exhausted() == before.ledger.ids_exhausted()
    &&& after.mirror@ == before.mirror@
    &&& after.timer@ == if before.mirror@ is Some {
        before.mirror@
    } else {
        before.timer@
    }
    &&& r is None <==> before.mirror@ is None
    &&& r matches Some(p) ==> status_matches(p, after.timer@, now)
}

impl Tracker {
    pub open spec fn wf(&self) -> bool {
        self.ledger.wf()
    }

    /// An idle tracker with an empty ledger and no mirrored timer.
    pub fn new() -> (r: Tracker)
        ensures
            r.wf(),
            r.timer@ is None,
            r.ledger@ == Seq::<EntryView>::empty(),
            !r.ledger.ids_exhausted(),
            r.mirror@ is None,
    {
        Tracker { timer: TimerState::new(), ledger: Ledger::new(), mirror: ActiveTimerMirror::new() }
    }

    /// A tracker as a fresh process finds it: its timer idle, over the
    /// stored ledger and mirror.
    pub fn from_storage(ledger: Ledger, mirror: ActiveTimerMirror) -> (r: Tracker)
        ensures
            r.timer@ is None,
            r.ledger == ledger,
            r.mirror == mirror,
    {
        Tracker { timer: TimerState::new(), ledger, mirror }
    }

    fn begin(&mut self, project_name: String, hourly_rate: u64, now: i64) -> (r: Result<
        TimerStatusPayload,
        TrackerError,
    >)
        requires
            old(self).wf(),
        ensures
            start_outcome(
                *old(self),
                *final(self),
                ActiveTimerView { project_name: project_name@, start_time: now, hourly_rate },
                r,
            ),
    {
        let timer = ActiveTimer { project_name: project_name.clone(), start_time: now, hourly_rate };
        let status = self.timer.start(project_name, now, hourly_rate);
        if status.is_ok() {
            persist_active_timer(&mut self.mirror, &timer);
        }
        status
    }

    /// Starts the timer at `now` for a sanitised project name and rate, and
    /// mirrors it.
    pub fn start_timer_internal(&mut self, project_name: String, hourly_rate: Option<i64>, now: i64) -> (r:
        Result<TimerStatusPayload, TrackerError>)
        requires
            old(self).wf(),
        ensures
            start_outcome(
                *old(self),
                *final(self),
                started_timer(project_name@, hourly_rate, now),
                r,
            ),
    {
        let name = sanitize_project_name(project_name);
        let rate = sanitize_hourly_rate(hourly_rate);
        self.begin(name, rate, now)
    }

    /// Starts the timer now, by the system clock. While a timer runs this
    /// fails without reading the clock.
    pub fn start_timer(&mut self, project_name: String, hourly_rate: Option<i64>) -> (r: Result<
        TimerStatusPayload,
        TrackerError,
    >)
        requires
            old(self).wf(),
        ensures
            old(self).timer@ is Some ==> r == Err::<TimerStatusPayload, TrackerError>(
                TrackerError::AlreadyRunning,
            ) && *final(self) == *old(self),
            (r == Err::<TimerStatusPayload, TrackerError>(TrackerError::ClockUnavailable)
                && *final(self) == *old(self)) || exists|now: i64|
                clock_reading(now) && start_outcome(
                    *old(self),
                    *final(self),
                    started_timer(project_name@, hourly_rate, now),
                    r,
                ),
    {
        if self.timer.is_running() {
            let r = Err(TrackerError::AlreadyRunning);
            assert(clock_reading(0) && start_outcome(
                *self,
                *self,
                started_timer(project_name@, hourly_rate, 0),
                r,
            ));
            return r;
        }
        let now = match current_unix_timestamp() {
            Ok(t) => t,
            Err(e) => {
                return Err(e);
            },
        };
        self.start_timer_internal(project_name, hourly_rate, now)
    }

    /// The tray's quick start: a blank name becomes a fixed label, and the
    /// rate is the one of the latest entry.
    pub fn start_timer_from_tray(&mut self, project_name: String, now: i64) -> (r: Result<
        TimerStatusPayload,
        TrackerError,
    >)
        requires
            old(self).wf(),
        ensures
            start_outcome(
                *old(self),
                *final(self),
                ActiveTimerView {
                    project_name: sanitized_name(tray_name(project_name@)),
                    start_time: now,
                    hourly_rate: if old(self).ledger@.len() == 0 {
                        0
                    } else {
                        old(self).ledger@.last().hourly_rate
                    },
                },
                r,
            ),
    {
        let name = sanitize_project_name(tray_project_name(project_name));
        let rate = self.ledger.last_used_hourly_rate();
        self.begin(name, rate, now)
    }

    /// Stops the timer at `now` and records its interval, which ends at
    /// `now` or one second after the start, whichever is later. The timer is
    /// idle afterwards even where recording fails.
    pub fn stop_timer_internal(&mut self, now: i64) -> (r: Result<Option<TimeEntry>, TrackerError>)
        requires
            old(self).wf(),
        ensures
            stop_outcome(*old(self), *final(self), now, r),
    {
        let active = match self.timer.take_active() {
            Some(a) => a,
            None => {
                return Err(TrackerError::NotRunning);
            },
        };
        let end_time = if now > active.start_time {
            now
        } else if active.start_time < i64::MAX {
            active.start_time + 1
        } else {
            return Err(TrackerError::InvalidInterval);
        };
        let entry = self.ledger.insert_entry(
            active.project_name,
            active.start_time,
            end_time,
            active.hourly_rate,
        );
        match entry {
            Ok(e) => {
                clear_active_timer(&mut self.mirror);
                Ok(Some(e))
            },
            Err(err) => Err(err),
        }
    }

    /// Stops the timer now, by the system clock. While idle this fails
    /// without reading the clock.
    pub fn stop_timer(&mut self) -> (r: Result<Option<TimeEntry>, TrackerError>)
        requires
            old(self).wf(),
        ensures
            old(self).timer@ is None ==> r == Err::<Option<TimeEntry>, TrackerError>(
                TrackerError::NotRunning,
            ) && *final(self) == *old(self),
            (r == Err::<Option<TimeEntry>, TrackerError>(TrackerError::ClockUnavailable)
                && *final(self) == *old(self)) || exists|now: i64|
                clock_reading(now) && stop_outcome(*old(self), *final(self), now, r),
    {
        if !self.timer.is_running() {
            let r = Err(TrackerError::NotRunning);
            assert(clock_reading(0) && stop_outcome(*self, *self, 0, r));
            return r;
        }
        let now = match current_unix_timestamp() {
            Ok(t) => t,
            Err(e) => {
                return Err(e);
            },
        };
        self.stop_timer_internal(now)
    }

    /// Undoes a start whose mirror write failed: the timer goes idle and the
    /// mirror holds again what it held before the start.
    pub fn rollback_start(&mut self, previous_mirror: Option<ActiveTimer>)
        requires
            old(self).wf(),
        ensures
            final(self).wf(),
            final(self).timer@ is None,
            final(self).mirror@ == timer_view(previous_mirror),
            final(self).ledger == old(self).ledger,
    {
        self.timer.clear();
        match previous_mirror {
            Some(t) => persist_active_timer(&mut self.mirror, &t),
            None => clear_active_timer(&mut self.mirror),
        }
    }

    /// The timer's status now; fails only where the clock gives no usable
    /// instant.
    pub fn get_timer_status(&self) -> (r: Result<TimerStatusPayload, TrackerError>)
        ensures
            self.timer@ is None ==> r is Ok && status_matches(r->Ok_0, self.timer@, 0),
            r matches Ok(p) ==> exists|now: i64| clock_reading(now) && status_matches(p, self.timer@, now),
            r matches Err(e) ==> e == TrackerError::ClockUnavailable,
    {
        self.timer.status()
    }

    /// Recovery at start-up: a timer found in the mirror runs again, as it
    /// was stored; its status at `now` comes back.
    pub fn restore_active_timer(&mut self, now: i64) -> (r: Option<TimerStatusPayload>)
        ensures
            restore_outcome(*old(self), *final(self), now, r),
    {
        match load_active_timer(&self.mirror) {
            Some(timer) => {
                self.timer.restore(timer);
                Some(self.timer.status_at(now))
            },
            None => None,
        }
    }
}

/// An entry created over a valid interval and then looked up by its id
/// has duration `end - start` and the amount that this duration earns at
/// its rate.
pub proof fn law_create_then_fetch(
    before: Seq<EntryView>,
    after: Seq<EntryView>,
    created: EntryView,
    fetched: EntryView,
    project_name: Seq<char>,
    start: i64,
    end: i64,
    rate: u64,
)
    requires
        valid_interval(start as int, end as int),
        created == entry_of(created.id, project_name, start, end, rate),
        placed_in_order(before, after, created),
        ids_distinct(after),
        after.contains(fetched),
        fetched.id == created.id,
    ensures
        fetched == created,
        fetched.duration == end - start,
        fetched.amount == crate::money::amount_of(end - start, rate as int),
{
    let pos = choose|pos: int|
        0 <= pos <= before.len() && after == before.insert(pos, created) && (forall|k: int|
            0 <= k < pos ==> before[k].start_time <= created.start_time) && (forall|k: int|
            pos <= k < before.len() ==> before[k].start_time > created.start_time);
    let j = choose|j: int| 0 <= j < after.len() && after[j] == fetched;
    assert(after[pos] == created);
    assert(j == pos);
    crate::money::lemma_amount_fits((end - start) as i64, rate);
}

/// Starting from idle and then stopping adds exactly one entry to the
/// ledger, under an id it did not hold: with the sanitised name and rate,
/// from the instant of the start to at least one second later, its
/// duration and amount derived from them. This needs the ledger to have
/// ids left, and the interval to be one the ledger can hold: a start
/// before the largest instant, and a stop less than `i64::MAX` seconds
/// after it.
pub proof fn law_start_then_stop(
    s0: Tracker,
    s1: Tracker,
    s2: Tracker,
    project_name: Seq<char>,
    hourly_rate: Option<i64>,
    started_at: i64,
    stopped_at: i64,
    r1: Result<TimerStatusPayload, TrackerError>,
    r2: Result<Option<TimeEntry>, TrackerError>,
)
    requires
        s0.timer@ is None,
        !s0.ledger.ids_exhausted(),
        started_at < i64::MAX,
        stopped_at - started_at <= i64::MAX,
        start_outcome(s0, s1, started_timer(project_name, hourly_rate, started_at), r1),
        stop_outcome(s1, s2, stopped_at, r2),
    ensures
        r1 is Ok,
        r2 is Ok && r2->Ok_0 is Some,
        ({
            let e = r2->Ok_0->Some_0@;
            &&& e.project_name == sanitized_name(project_name)
            &&& e.hourly_rate == sanitized_rate(hourly_rate)
            &&& e.start_time == started_at
            &&& e.end_time >= started_at + 1
            &&& e.duration == e.end_time - e.start_time
            &&& e.amount == crate::money::amount_of(e.duration as int, e.hourly_rate as int)
            &&& !has_id(s0.ledger@, e.id)
            &&& placed_in_order(s0.ledger@, s2.ledger@, e)
        }),
        s2.timer@ is None,
        s2.mirror@ is None,
{
    let e = r2->Ok_0->Some_0@;
    crate::money::lemma_amount_fits(e.duration, e.hourly_rate);
}

/// A timer that was started and mirrored comes back unchanged after a
/// restart: a fresh tracker over the same mirror, recovered, runs the same
/// project from the same start at the same rate.
pub proof fn law_recovery_after_restart(
    s0: Tracker,
    s1: Tracker,
    fresh: Tracker,
    s2: Tracker,
    timer: ActiveTimerView,
    now: i64,
    r1: Result<TimerStatusPayload, TrackerError>,
    r2: Option<TimerStatusPayload>,
)
    requires
        s0.timer@ is None,
        start_outcome(s0, s1, timer, r1),
        fresh.timer@ is None,
        fresh.mirror@ == s1.mirror@,
        restore_outcome(fresh, s2, now, r2),
    ensures
        s2.timer@ == s1.timer@,
        r2 is Some,
        status_matches(r2->Some_0, s1.timer@, now),
{
}

} // verus!
