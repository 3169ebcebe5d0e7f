use vstd::prelude::*;
use crate::money::{amount_of, calculate_amount};

verus! {

/// A closed interval of work, as the ledger stores it. Rates and amounts
/// are in hundredths of a currency unit (per hour, and in total).
#[derive(Debug)]
pub struct TimeEntry {
    pub id: i64,
    pub project_name: String,
    pub start_time: i64,
    pub end_time: i64,
    pub duration: i64,
    pub hourly_rate: u64,
    pub amount: i128,
}

/// The mathematical value of a [`TimeEntry`].
pub struct EntryView {
    pub id: i64,
    pub project_name: Seq<char>,
    pub start_time: i64,
    pub end_time: i64,
    pub duration: i64,
    pub hourly_rate: u64,
    pub amount: i128,
}

impl View for TimeEntry {
    type V = EntryView;

    open spec fn view(&self) -> EntryView {
        EntryView {
            id: self.id,
            project_name: self.project_name@,
            start_time: self.start_time,
            end_time: self.end_time,
            duration: self.duration,
            hourly_rate: self.hourly_rate,
            amount: self.amount,
        }
    }
}

/// `[start, end)` is a non-empty interval whose length fits in an `i64`.
pub open spec fn valid_interval(start: int, end: int) -> bool {
    start < end && end - start <= i64::MAX
}

/// The derived fields of an entry agree with its interval and rate.
pub open spec fn entry_consistent(e: EntryView) -> bool {
    &&& valid_interval(e.start_time as int, e.end_time as int)
    &&& e.duration == e.end_time - e.start_time
    &&& e.amount == amount_of(e.duration as int, e.hourly_rate as int)
}

/// The entry that the given fields make, its duration and amount derived.
pub open spec fn entry_of(
    id: i64,
    project_name: Seq<char>,
    start_time: i64,
    end_time: i64,
    hourly_rate: u64,
) -> EntryView {
    EntryView {
        id,
        project_name,
        start_time,
        end_time,
        duration: (end_time - start_time) as i64,
        hourly_rate,
        amount: amount_of(end_time - start_time, hourly_rate as int) as i128,
    }
}

impl TimeEntry {
    /// Makes an entry over `[start_time, end_time)`, deriving its duration
    /// and amount.
    pub fn new(id: i64, project_name: String, start_time: i64, end_time: i64, hourly_rate: u64) -> (r:
        TimeEntry)
        requires
            valid_interval(start_time as int, end_time as int),
        ensures
            r@ == entry_of(id, project_name@, start_time, end_time, hourly_rate),
            entry_consistent(r@),
    {
        let duration = end_time - start_time;
        let amount = calculate_amount(duration, hourly_rate);
        TimeEntry { id, project_name, start_time, end_time, duration, hourly_rate, amount }
    }

    /// A copy of this entry.
    pub fn clone_entry(&self) -> (r: TimeEntry)
        ensures
            r@ == self@,
    {
        TimeEntry {
            id: self.id,
            project_name: self.project_name.clone(),
            start_time: self.start_time,
            end_time: self.end_time,
            duration: self.duration,
            hourly_rate: self.hourly_rate,
            amount: self.amount,
        }
    }
}

} // verus!
