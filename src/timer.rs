use vstd::prelude::*;
use crate::clock::{clock_reading, current_unix_timestamp};
use crate::error::TrackerError;
use crate::text::{duration_text, format_duration};

verus! {

/// The running timer: what it is for, since when, at what rate (in
/// hundredths per hour).
#[derive(Debug)]
pub struct ActiveTimer {
    pub project_name: String,
    pub start_time: i64,
    pub hourly_rate: u64,
}

/// The mathematical value of an [`ActiveTimer`].
pub struct ActiveTimerView {
    pub project_name: Seq<char>,
    pub start_time: i64,
    pub hourly_rate: u64,
}

impl View for ActiveTimer {
    type V = ActiveTimerView;

    open spec fn view(&self) -> ActiveTimerView {
        ActiveTimerView {
            project_name: self.project_name@,
            start_time: self.start_time,
            hourly_rate: self.hourly_rate,
        }
    }
}

impl ActiveTimer {
    /// A copy of this timer.
    pub fn clone_timer(&self) -> (r: ActiveTimer)
        ensures
            r@ == self@,
    {
        ActiveTimer {
            project_name: self.project_name.clone(),
            start_time: self.start_time,
            hourly_rate: self.hourly_rate,
        }
    }
}

/// The views of an optional timer.
pub open spec fn timer_view(t: Option<ActiveTimer>) -> Option<ActiveTimerView> {
    match t {
        Some(a) => Some(a@),
        None => None,
    }
}

/// What the timer reports about itself.
#[derive(Debug)]
pub struct TimerStatusPayload {
    pub is_running: bool,
    pub project_name: Option<String>,
    pub start_time: Option<i64>,
    pub elapsed_seconds: Option<i64>,
    pub hourly_rate: Option<u64>,
}

/// Seconds from `start` to `now`, clamped to `[0, i64::MAX]`.
pub open spec fn elapsed_since(start: i64, now: i64) -> i64 {
    if now - start < 0 {
        0
    } else if now - start > i64::MAX {
        i64::MAX
    } else {
        (now - start) as i64
    }
}

/// `p` reports the timer `t` at the instant `now`.
pub open spec fn status_matches(p: TimerStatusPayload, t: Option<ActiveTimerView>, now: i64) -> bool {
    match t {
        None => {
            &&& !p.is_running
            &&& p.project_name is None
            &&& p.start_time is None
            &&& p.elapsed_seconds is None
            &&& p.hourly_rate is None
        },
        Some(a) => {
            &&& p.is_running
            &&& p.project_name matches Some(n) && n@ == a.project_name
            &&& p.start_time == Some(a.start_time)
            &&& p.elapsed_seconds == Some(elapsed_since(a.start_time, now))
            &&& p.hourly_rate == Some(a.hourly_rate)
        },
    }
}

/// The in-memory state machine of the single timer: idle, or running.
#[derive(Debug)]
pub struct TimerState {
    active: Option<ActiveTimer>,
}

impl View for TimerState {
    type V = Option<ActiveTimerView>;

    closed spec fn view(&self) -> Option<ActiveTimerView> {
        timer_view(self.active)
    }
}

impl TimerState {
    /// An idle timer.
    pub fn new() -> (r: TimerState)
        ensures
            r@ is None,
    {
        TimerState { active: None }
    }

    /// The status at the instant `now`.
    pub fn status_at(&self, now: i64) -> (r: TimerStatusPayload)
        ensures
            status_matches(r, self@, now),
    {
        match &self.active {
            Some(active) => {
                let diff: i128 = now as i128 - active.start_time as i128;
                let elapsed: i64 = if diff < 0 {
                    0
                } else if diff > i64::MAX as i128 {
                    i64::MAX
                } else {
                    diff as i64
                };
                TimerStatusPayload {
                    is_running: true,
                    project_name: Some(active.project_name.clone()),
                    start_time: Some(active.start_time),
                    elapsed_seconds: Some(elapsed),
                    hourly_rate: Some(active.hourly_rate),
                }
            },
            None => TimerStatusPayload {
                is_running: false,
                project_name: None,
                start_time: None,
                elapsed_seconds: None,
                hourly_rate: None,
            },
        }
    }

    /// The status now. The clock is read only while a timer runs, and the
    /// call fails only where it then gives no usable instant.
    pub fn status(&self) -> (r: Result<TimerStatusPayload, TrackerError>)
        ensures
            self@ is None ==> r is Ok && status_matches(r->Ok_0, self@, 0),
            r matches Ok(p) ==> exists|now: i64| clock_reading(now) && status_matches(p, self@, now),
            r matches Err(e) ==> e == TrackerError::ClockUnavailable,
    {
        if self.active.is_none() {
            let p = self.status_at(0);
            assert(clock_reading(0));
            return Ok(p);
        }
        let now = current_unix_timestamp()?;
        Ok(self.status_at(now))
    }

    /// Whether a timer runs.
    pub fn is_running(&self) -> (r: bool)
        ensures
            r == self@ is Some,
    {
        self.active.is_some()
    }

    /// Starts the timer; fails, changing nothing, while one is running.
    pub fn start(&mut self, project_name: String, start_time: i64, hourly_rate: u64) -> (r: Result<
        TimerStatusPayload,
        TrackerError,
    >)
        ensures
            old(self)@ is Some ==> r == Err::<TimerStatusPayload, TrackerError>(
                TrackerError::AlreadyRunning,
            ) && final(self)@ == old(self)@,
            old(self)@ is None ==> r is Ok && final(self)@ == Some(
                ActiveTimerView { project_name: project_name@, start_time, hourly_rate },
            ) && status_matches(r->Ok_0, final(self)@, start_time),
    {
        if self.active.is_some() {
            return Err(TrackerError::AlreadyRunning);
        }
        let name_copy = project_name.clone();
        self.active = Some(ActiveTimer { project_name, start_time, hourly_rate });
        Ok(TimerStatusPayload {
            is_running: true,
            project_name: Some(name_copy),
            start_time: Some(start_time),
            elapsed_seconds: Some(0),
            hourly_rate: Some(hourly_rate),
        })
    }

    /// Stops the timer, handing out what it held.
    pub fn take_active(&mut self) -> (r: Option<ActiveTimer>)
        ensures
            timer_view(r) == old(self)@,
            final(self)@ is None,
    {
        self.active.take()
    }

    /// Makes the timer idle.
    pub fn clear(&mut self)
        ensures
            final(self)@ is None,
    {
        self.active = None;
    }

    /// Puts a timer back as it was, replacing any other.
    pub fn restore(&mut self, timer: ActiveTimer)
        ensures
            final(self)@ == Some(timer@),
    {
        self.active = Some(timer);
    }
}

/// The one-line description of a status: the running project and its
/// elapsed time, or a note that nothing runs.
pub open spec fn status_text(p: TimerStatusPayload) -> Seq<char> {
    match (p.project_name, p.elapsed_seconds) {
        (Some(n), Some(e)) => "Running: "@ + n@ + " ("@ + duration_text(e as int) + ")"@,
        _ => "Status: No timer running"@,
    }
}

/// Describes a status in one line.
pub fn build_status_text(status: &TimerStatusPayload) -> (r: String)
    ensures
        r@ == status_text(*status),
{
    match (&status.project_name, status.elapsed_seconds) {
        (Some(name), Some(elapsed)) => {
            let mut s = String::from_str("Running: ");
            s.append(name.as_str());
            s.append(" (");
            let d = format_duration(elapsed);
            s.append(d.as_str());
            s.append(")");
            s
        },
        _ => String::from_str("Status: No timer running"),
    }
}

} // verus!
