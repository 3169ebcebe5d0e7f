use vstd::prelude::*;
use crate::timer::{ActiveTimer, ActiveTimerView, timer_view};

verus! {

/// The durable single-row shadow of the running timer, read back only
/// when the process starts.
#[derive(Debug)]
pub struct ActiveTimerMirror {
    row: Option<ActiveTimer>,
}

impl View for ActiveTimerMirror {
    type V = Option<ActiveTimerView>;

    closed spec fn view(&self) -> Option<ActiveTimerView> {
        timer_view(self.row)
    }
}

impl ActiveTimerMirror {
    /// A mirror with no row.
    pub fn new() -> (r: ActiveTimerMirror)
        ensures
            r@ is None,
    {
        ActiveTimerMirror { row: None }
    }
}

/// Writes the row, replacing any earlier one.
pub fn persist_active_timer(mirror: &mut ActiveTimerMirror, timer: &ActiveTimer)
    ensures
        final(mirror)@ == Some(timer@),
{
    mirror.row = Some(timer.clone_timer());
}

/// Deletes the row, if there is one.
pub fn clear_active_timer(mirror: &mut ActiveTimerMirror)
    ensures
        final(mirror)@ is None,
{
    mirror.row = None;
}

/// Reads the row back.
pub fn load_active_timer(mirror: &ActiveTimerMirror) -> (r: Option<ActiveTimer>)
    ensures
        timer_view(r) == mirror@,
{
    match &mirror.row {
        Some(t) => Some(t.clone_timer()),
        None => None,
    }
}

} // verus!
