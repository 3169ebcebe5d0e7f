use vstd::prelude::*;
use crate::entry::{EntryView, TimeEntry, entry_consistent, entry_of, valid_interval};
use crate::error::TrackerError;
use crate::clock::{DAY_SECONDS, day_bounds_timestamps};
use crate::money::{sanitize_hourly_rate, sanitized_rate};
use crate::text::{sanitize_project_name, sanitized_name};

verus! {

/// Entries are in ascending order of start time.
pub open spec fn sorted_by_start(s: Seq<EntryView>) -> bool {
    forall|i: int, j: int| 0 <= i < j < s.len() ==> s[i].start_time <= s[j].start_time
}

/// No two entries share an id.
pub open spec fn ids_distinct(s: Seq<EntryView>) -> bool {
    forall|i: int, j: int| 0 <= i < s.len() && 0 <= j < s.len() && i != j ==> s[i].id != s[j].id
}

/// What holds of the rows of a ledger at all times.
pub open spec fn ledger_rows_ok(s: Seq<EntryView>) -> bool {
    &&& sorted_by_start(s)
    &&& ids_distinct(s)
    &&& forall|i: int| 0 <= i < s.len() ==> entry_consistent(#[trigger] s[i]) && s[i].id >= 1
}

/// Some entry has this id.
pub open spec fn has_id(s: Seq<EntryView>, id: i64) -> bool {
    exists|i: int| 0 <= i < s.len() && s[i].id == id
}

/// The entry starts inside the half-open window `[lo, hi)`.
pub open spec fn in_window(e: EntryView, lo: i64, hi: i64) -> bool {
    lo <= e.start_time && e.start_time < hi
}

pub open spec fn window_pred(lo: i64, hi: i64) -> spec_fn(EntryView) -> bool {
    |e: EntryView| in_window(e, lo, hi)
}

/// `[a, b)` and `[c, d)` share an instant: they overlap unless `b <= c` or
/// `a >= d`.
pub open spec fn intervals_overlap(a: int, b: int, c: int, d: int) -> bool {
    !(b <= c || a >= d)
}

/// Another entry than `id` whose interval overlaps `[start, end)`.
pub open spec fn overlap_pred(id: i64, start: i64, end: i64) -> spec_fn(EntryView) -> bool {
    |e: EntryView|
        e.id != id && intervals_overlap(
            e.start_time as int,
            e.end_time as int,
            start as int,
            end as int,
        )
}

/// The views of a vector of entries.
pub open spec fn views(v: Seq<TimeEntry>) -> Seq<EntryView> {
    v.map_values(|e: TimeEntry| e@)
}

/// Sum of the durations of the entries that start in `[lo, hi)`.
pub open spec fn window_seconds(s: Seq<EntryView>, lo: i64, hi: i64) -> int
    decreases s.len(),
{
    if s.len() == 0 {
        0
    } else {
        window_seconds(s.drop_last(), lo, hi) + if in_window(s.last(), lo, hi) {
            s.last().duration as int
        } else {
            0
        }
    }
}

/// Sum of the amounts of the entries that start in `[lo, hi)`.
pub open spec fn window_amount(s: Seq<EntryView>, lo: i64, hi: i64) -> int
    decreases s.len(),
{
    if s.len() == 0 {
        0
    } else {
        window_amount(s.drop_last(), lo, hi) + if in_window(s.last(), lo, hi) {
            s.last().amount as int
        } else {
            0
        }
    }
}

proof fn lemma_window_sums_grow(s: Seq<EntryView>, lo: i64, hi: i64, i: int, j: int)
    requires
        0 <= i <= j <= s.len(),
        forall|k: int| 0 <= k < s.len() ==> entry_consistent(#[trigger] s[k]),
    ensures
        window_seconds(s.take(i), lo, hi) <= window_seconds(s.take(j), lo, hi),
        window_amount(s.take(i), lo, hi) <= window_amount(s.take(j), lo, hi),
    decreases j - i,
{
    if i < j {
        lemma_window_sums_grow(s, lo, hi, i, j - 1);
        assert(s.take(j).drop_last() =~= s.take(j - 1));
        let e = s[j - 1];
        assert(entry_consistent(e));
        assert(e.duration as int * e.hourly_rate as int >= 0) by (nonlinear_arith)
            requires
                e.duration > 0,
                e.hourly_rate >= 0,
        ;
    }
}

/// What a time entry becomes under an edit: omitted fields keep their
/// value, the start stays, and the end follows the duration.
pub open spec fn edited_entry(
    cur: EntryView,
    project_name: Option<String>,
    hourly_rate: Option<Option<i64>>,
    duration: i64,
) -> EntryView {
    entry_of(
        cur.id,
        match project_name {
            Some(n) => sanitized_name(n@),
            None => cur.project_name,
        },
        cur.start_time,
        (cur.start_time + duration) as i64,
        match hourly_rate {
            Some(r) => sanitized_rate(r) as u64,
            None => cur.hourly_rate,
        },
    )
}

/// The duration that an edit asks for.
pub open spec fn edited_duration(cur: EntryView, duration: Option<i64>) -> i64 {
    match duration {
        Some(d) => d,
        None => cur.duration,
    }
}

/// `after` is `before` with `e` put after every entry that starts no
/// later than it and before every entry that starts later.
pub open spec fn placed_in_order(before: Seq<EntryView>, after: Seq<EntryView>, e: EntryView) -> bool {
    exists|pos: int|
        0 <= pos <= before.len() && after == before.insert(pos, e) && (forall|k: int|
            0 <= k < pos ==> before[k].start_time <= e.start_time) && (forall|k: int|
            pos <= k < before.len() ==> before[k].start_time > e.start_time)
}

/// Totals over a window of the ledger; the amount is in hundredths.
#[derive(Debug)]
pub struct TodayTotals {
    pub total_seconds: i128,
    pub total_amount: i128,
}

/// Entries whose intervals overlap an edited one.
#[derive(Debug)]
pub struct OverlapWarning {
    pub overlapping_entries: Vec<TimeEntry>,
}

/// An edited entry, with the advisory warning of its overlaps.
#[derive(Debug)]
pub struct UpdateResult {
    pub entry: TimeEntry,
    pub overlap_warning: Option<OverlapWarning>,
}

/// The durable table of completed intervals, kept in ascending order of
/// start time (entries with equal starts in the order they were added).
#[derive(Debug)]
pub struct Ledger {
    entries: Vec<TimeEntry>,
    next_id: i64,
}

impl View for Ledger {
    type V = Seq<EntryView>;

    closed spec fn view(&self) -> Seq<EntryView> {
        views(self.entries@)
    }
}

impl Ledger {
    pub closed spec fn wf(&self) -> bool {
        &&& ledger_rows_ok(self@)
        &&& self.next_id >= 1
        &&& forall|i: int| 0 <= i < self@.len() ==> #[trigger] self@[i].id < self.next_id
    }

    /// No id is left for a new entry.
    pub closed spec fn ids_exhausted(&self) -> bool {
        self.next_id == i64::MAX
    }

    /// The rows of a well-formed ledger are well-formed.
    pub proof fn lemma_rows_ok(&self)
        requires
            self.wf(),
        ensures
            ledger_rows_ok(self@),
    {
    }

    /// An empty ledger.
    pub fn new() -> (r: Ledger)
        ensures
            r.wf(),
            r@ == Seq::<EntryView>::empty(),
            !r.ids_exhausted(),
    {
        let r = Ledger { entries: Vec::new(), next_id: 1 };
        assert(r@ =~= Seq::<EntryView>::empty());
        r
    }

    /// Number of entries.
    pub fn len(&self) -> (r: usize)
        ensures
            r == self@.len(),
    {
        self.entries.len()
    }

    /// The position at which an entry starting at `start` goes: after every
    /// entry that starts no later.
    fn insertion_point(&self, start: i64) -> (pos: usize)
        requires
            self.wf(),
        ensures
            pos <= self@.len(),
            forall|k: int| 0 <= k < pos ==> self@[k].start_time <= start,
            forall|k: int| pos <= k < self@.len() ==> self@[k].start_time > start,
    {
        let mut i: usize = 0;
        while i < self.entries.len() && self.entries[i].start_time <= start
            invariant
                self.wf(),
                i <= self@.len(),
                forall|k: int| 0 <= k < i ==> self@[k].start_time <= start,
            decreases self@.len() - i,
        {
            i = i + 1;
        }
        proof {
            if i < self@.len() {
                assert(self@[i as int].start_time > start);
                assert forall|k: int| i <= k < self@.len() implies self@[k].start_time > start by {
                    if k > i {
                        assert(self@[i as int].start_time <= self@[k].start_time);
                    }
                }
            }
        }
        i
    }

    /// Adds an entry with a given id at its place in start order.
    fn place(&mut self, e: TimeEntry)
        requires
            old(self).wf(),
            entry_consistent(e@),
            e.id >= 1,
            !has_id(old(self)@, e.id),
            e.id < old(self).next_id,
        ensures
            final(self).wf(),
            final(self).next_id == old(self).next_id,
            placed_in_order(old(self)@, final(self)@, e@),
    {
        let pos = self.insertion_point(e.start_time);
        let ghost ev = e@;
        let ghost old_view = self@;
        self.entries.insert(pos, e);
        assert(self@ =~= old_view.insert(pos as int, ev));
        let ghost s = self@;
        assert forall|i: int, j: int| 0 <= i < j < s.len() implies s[i].start_time
            <= s[j].start_time by {
            if i < pos && j > pos {
                assert(s[i] == old_view[i]);
                assert(s[j] == old_view[j - 1]);
            }
        }
        assert forall|i: int, j: int|
            0 <= i < s.len() && 0 <= j < s.len() && i != j implies s[i].id != s[j].id by {
            if i == pos {
                assert(s[j] == if j < pos { old_view[j] } else { old_view[j - 1] });
            } else if j == pos {
                assert(s[i] == if i < pos { old_view[i] } else { old_view[i - 1] });
            }
        }
        assert forall|i: int| 0 <= i < s.len() implies entry_consistent(#[trigger] s[i])
            && s[i].id >= 1 && s[i].id < self.next_id by {
            if i < pos {
                assert(s[i] == old_view[i]);
            } else if i > pos {
                assert(s[i] == old_view[i - 1]);
            }
        }
    }

    /// Appends a new interval under a fresh id (the next one in sequence),
    /// computing its duration and amount.
    pub fn insert_entry(
        &mut self,
        project_name: String,
        start_time: i64,
        end_time: i64,
        hourly_rate: u64,
    ) -> (r: Result<TimeEntry, TrackerError>)
        requires
            old(self).wf(),
        ensures
            final(self).wf(),
            !valid_interval(start_time as int, end_time as int) ==> r == Err::<
                TimeEntry,
                TrackerError,
            >(TrackerError::InvalidInterval),
            valid_interval(start_time as int, end_time as int) && old(self).ids_exhausted() ==> r
                == Err::<TimeEntry, TrackerError>(TrackerError::StorageUnavailable),
            r.is_err() ==> final(self)@ == old(self)@ && final(self).ids_exhausted() == old(
                self,
            ).ids_exhausted(),
            valid_interval(start_time as int, end_time as int) && !old(self).ids_exhausted()
                ==> r.is_ok(),
            r matches Ok(e) ==> {
                &&& e@ == entry_of(e.id, project_name@, start_time, end_time, hourly_rate)
                &&& !has_id(old(self)@, e.id)
                &&& placed_in_order(old(self)@, final(self)@, e@)
            },
    {
        if !(start_time < end_time && (end_time as i128) - (start_time as i128) <= i64::MAX as i128) {
            return Err(TrackerError::InvalidInterval);
        }
        if self.next_id == i64::MAX {
            return Err(TrackerError::StorageUnavailable);
        }
        let id = self.next_id;
        let e = TimeEntry::new(id, project_name, start_time, end_time, hourly_rate);
        let kept = e.clone_entry();
        self.next_id = id + 1;
        proof {
            assert forall|i: int| 0 <= i < self@.len() implies #[trigger] self@[i].id < self.next_id by {}
        }
        self.place(e);
        Ok(kept)
    }

    /// Index of the entry with this id.
    fn index_of(&self, id: i64) -> (r: Option<usize>)
        requires
            self.wf(),
        ensures
            r matches Some(i) ==> i < self@.len() && self@[i as int].id == id,
            r is None ==> !has_id(self@, id),
    {
        let mut i: usize = 0;
        while i < self.entries.len()
            invariant
                self.wf(),
                i <= self@.len(),
                forall|k: int| 0 <= k < i ==> self@[k].id != id,
            decreases self@.len() - i,
        {
            if self.entries[i].id == id {
                return Some(i);
            }
            i = i + 1;
        }
        None
    }

    /// Looks up the entry with this id.
    pub fn fetch_time_entry(&self, id: i64) -> (r: Result<TimeEntry, TrackerError>)
        requires
            self.wf(),
        ensures
            r matches Ok(e) ==> e.id == id && exists|i: int|
                0 <= i < self@.len() && self@[i] == e@,
            r is Err ==> r == Err::<TimeEntry, TrackerError>(TrackerError::NotFound),
            r is Err <==> !has_id(self@, id),
    {
        match self.index_of(id) {
            Some(i) => Ok(self.entries[i].clone_entry()),
            None => Err(TrackerError::NotFound),
        }
    }

    /// The entries that start in `[start_ts, end_ts)`, latest first.
    pub fn query_entries_between(&self, start_ts: i64, end_ts: i64) -> (r: Vec<TimeEntry>)
        requires
            self.wf(),
        ensures
            views(r@) == self@.filter(window_pred(start_ts, end_ts)).reverse(),
    {
        let mut r: Vec<TimeEntry> = Vec::new();
        let mut i: usize = 0;
        while i < self.entries.len()
            invariant
                self.wf(),
                i <= self@.len(),
                views(r@) == self@.take(i as int).filter(window_pred(start_ts, end_ts)).reverse(),
            decreases self@.len() - i,
        {
            let ghost p = window_pred(start_ts, end_ts);
            let ghost before = views(r@);
            proof {
                assert(self@.take(i + 1) =~= self@.take(i as int).push(self@[i as int]));
                self@.take(i as int).lemma_filter_push(self@[i as int], p);
            }
            let e = &self.entries[i];
            if e.start_time >= start_ts && e.start_time < end_ts {
                let c = e.clone_entry();
                r.insert(0, c);
                proof {
                    let f = self@.take(i as int).filter(p);
                    assert(f.push(self@[i as int]).reverse() =~= seq![self@[i as int]] + f.reverse());
                    assert(views(r@) =~= seq![self@[i as int]] + before);
                }
            }
            i = i + 1;
        }
        assert(self@.take(self@.len() as int) =~= self@);
        r
    }

    /// The entries that start in `[start_ts, end_ts)`, earliest first.
    pub fn entries_between_ascending(&self, start_ts: i64, end_ts: i64) -> (r: Vec<TimeEntry>)
        requires
            self.wf(),
        ensures
            views(r@) == self@.filter(window_pred(start_ts, end_ts)),
    {
        let mut r: Vec<TimeEntry> = Vec::new();
        let mut i: usize = 0;
        while i < self.entries.len()
            invariant
                self.wf(),
                i <= self@.len(),
                views(r@) == self@.take(i as int).filter(window_pred(start_ts, end_ts)),
            decreases self@.len() - i,
        {
            let ghost p = window_pred(start_ts, end_ts);
            proof {
                assert(self@.take(i + 1) =~= self@.take(i as int).push(self@[i as int]));
                self@.take(i as int).lemma_filter_push(self@[i as int], p);
            }
            let e = &self.entries[i];
            if e.start_time >= start_ts && e.start_time < end_ts {
                let c = e.clone_entry();
                r.push(c);
                assert(views(r@) =~= self@.take(i as int).filter(p).push(self@[i as int]));
            }
            i = i + 1;
        }
        assert(self@.take(self@.len() as int) =~= self@);
        r
    }

    /// Every other entry than `current_id` whose interval overlaps
    /// `[start_time, end_time)`, earliest first.
    pub fn check_overlapping_entries(&self, current_id: i64, start_time: i64, end_time: i64) -> (r:
        Vec<TimeEntry>)
        requires
            self.wf(),
        ensures
            views(r@) == self@.filter(overlap_pred(current_id, start_time, end_time)),
    {
        let mut r: Vec<TimeEntry> = Vec::new();
        let mut i: usize = 0;
        while i < self.entries.len()
            invariant
                self.wf(),
                i <= self@.len(),
                views(r@) == self@.take(i as int).filter(
                    overlap_pred(current_id, start_time, end_time),
                ),
            decreases self@.len() - i,
        {
            let ghost p = overlap_pred(current_id, start_time, end_time);
            proof {
                assert(self@.take(i + 1) =~= self@.take(i as int).push(self@[i as int]));
                self@.take(i as int).lemma_filter_push(self@[i as int], p);
            }
            let e = &self.entries[i];
            if e.id != current_id && !(e.end_time <= start_time || e.start_time >= end_time) {
                let c = e.clone_entry();
                r.push(c);
                assert(views(r@) =~= self@.take(i as int).filter(p).push(self@[i as int]));
            }
            i = i + 1;
        }
        assert(self@.take(self@.len() as int) =~= self@);
        r
    }

    /// Edits the entry with this id: a given name or rate is sanitised and
    /// replaces the stored one, a given duration moves the end (the start
    /// stays), and the amount is recomputed. Entries that the new interval
    /// overlaps come back as a warning; the edit is made regardless.
    pub fn update_time_entry(
        &mut self,
        id: i64,
        project_name: Option<String>,
        hourly_rate: Option<Option<i64>>,
        duration: Option<i64>,
    ) -> (r: Result<UpdateResult, TrackerError>)
        requires
            old(self).wf(),
        ensures
            final(self).wf(),
            final(self).ids_exhausted() == old(self).ids_exhausted(),
            r is Err ==> final(self)@ == old(self)@,
            !has_id(old(self)@, id) ==> r is Err && r->Err_0 == TrackerError::NotFound,
            forall|i: int|
                0 <= i < old(self)@.len() && #[trigger] old(self)@[i].id == id ==> {
                    let cur = old(self)@[i];
                    let d = edited_duration(cur, duration);
                    let end = cur.start_time + d;
                    if !(d > 0 && end <= i64::MAX) {
                        r is Err && r->Err_0 == TrackerError::InvalidInterval
                    } else {
                        &&& r is Ok
                        &&& r->Ok_0.entry@ == edited_entry(cur, project_name, hourly_rate, d)
                        &&& final(self)@ == old(self)@.update(i, r->Ok_0.entry@)
                        &&& (r->Ok_0.overlap_warning is None <==> old(self)@.filter(
                            overlap_pred(id, cur.start_time, end as i64),
                        ).len() == 0)
                        &&& (r->Ok_0.overlap_warning matches Some(w) ==> views(
                            w.overlapping_entries@,
                        ) == old(self)@.filter(overlap_pred(id, cur.start_time, end as i64)))
                    }
                },
    {
        let idx = match self.index_of(id) {
            Some(i) => i,
            None => {
                return Err(TrackerError::NotFound);
            },
        };
        let start = self.entries[idx].start_time;
        let d = match duration {
            Some(d) => d,
            None => self.entries[idx].duration,
        };
        if d <= 0 || start > i64::MAX - d {
            return Err(TrackerError::InvalidInterval);
        }
        let end = start + d;
        let name = match project_name {
            Some(n) => sanitize_project_name(n),
            None => self.entries[idx].project_name.clone(),
        };
        let rate = match hourly_rate {
            Some(x) => sanitize_hourly_rate(x),
            None => self.entries[idx].hourly_rate,
        };
        let overlapping = self.check_overlapping_entries(id, start, end);
        let overlap_warning = if overlapping.len() == 0 {
            None
        } else {
            Some(OverlapWarning { overlapping_entries: overlapping })
        };
        let e = TimeEntry::new(id, name, start, end, rate);
        let kept = e.clone_entry();
        let ghost old_view = self@;
        let ghost ev = e@;
        self.entries.set(idx, e);
        proof {
            assert(self@ =~= old_view.update(idx as int, ev));
            assert forall|i: int| 0 <= i < old_view.len() && #[trigger] old_view[i].id == id
                implies i == idx by {}
            let s = self@;
            assert forall|i: int| 0 <= i < s.len() implies entry_consistent(#[trigger] s[i])
                && s[i].id >= 1 && s[i].id < self.next_id by {
                if i != idx {
                    assert(s[i] == old_view[i]);
                }
            }
            assert forall|i: int, j: int| 0 <= i < j < s.len() implies s[i].start_time
                <= s[j].start_time by {
                assert(old_view[i].start_time <= old_view[j].start_time);
            }
        }
        Ok(UpdateResult { entry: kept, overlap_warning })
    }

    /// Removes the entry with this id, if there is one.
    pub fn delete_time_entry(&mut self, id: i64)
        requires
            old(self).wf(),
        ensures
            final(self).wf(),
            final(self).ids_exhausted() == old(self).ids_exhausted(),
            !has_id(old(self)@, id) ==> final(self)@ == old(self)@,
            forall|i: int|
                0 <= i < old(self)@.len() && #[trigger] old(self)@[i].id == id ==> final(self)@
                    == old(self)@.remove(i),
    {
        match self.index_of(id) {
            Some(idx) => {
                let ghost old_view = self@;
                self.entries.remove(idx);
                proof {
                    assert(self@ =~= old_view.remove(idx as int));
                    assert forall|i: int| 0 <= i < old_view.len() && #[trigger] old_view[i].id == id
                        implies i == idx by {}
                    let s = self@;
                    assert forall|i: int| 0 <= i < s.len() implies entry_consistent(#[trigger] s[i])
                        && s[i].id >= 1 && s[i].id < self.next_id by {
                        if i >= idx {
                            assert(s[i] == old_view[i + 1]);
                        }
                    }
                    assert forall|i: int, j: int| 0 <= i < j < s.len() implies s[i].start_time
                        <= s[j].start_time by {
                        let oi = if i < idx { i } else { i + 1 };
                        let oj = if j < idx { j } else { j + 1 };
                        assert(old_view[oi].start_time <= old_view[oj].start_time);
                    }
                    assert forall|i: int, j: int|
                        0 <= i < s.len() && 0 <= j < s.len() && i != j implies s[i].id
                        != s[j].id by {
                        let oi = if i < idx { i } else { i + 1 };
                        let oj = if j < idx { j } else { j + 1 };
                        assert(old_view[oi].id != old_view[oj].id);
                    }
                }
            },
            None => {},
        }
    }

    /// Total seconds and amount of the entries that start in
    /// `[start_ts, end_ts)`; `None` where a total does not fit in an `i128`.
    pub fn query_totals_between(&self, start_ts: i64, end_ts: i64) -> (r: Option<TodayTotals>)
        requires
            self.wf(),
        ensures
            r is None <==> window_seconds(self@, start_ts, end_ts) > i128::MAX || window_amount(
                self@,
                start_ts,
                end_ts,
            ) > i128::MAX,
            r matches Some(t) ==> t.total_seconds == window_seconds(self@, start_ts, end_ts)
                && t.total_amount == window_amount(self@, start_ts, end_ts),
    {
        let mut secs: i128 = 0;
        let mut amount: i128 = 0;
        let mut i: usize = 0;
        assert(self@.take(0) =~= Seq::<EntryView>::empty());
        while i < self.entries.len()
            invariant
                self.wf(),
                i <= self@.len(),
                secs == window_seconds(self@.take(i as int), start_ts, end_ts),
                amount == window_amount(self@.take(i as int), start_ts, end_ts),
            decreases self@.len() - i,
        {
            proof {
                assert(self@.take(i + 1).drop_last() =~= self@.take(i as int));
                lemma_window_sums_grow(self@, start_ts, end_ts, i + 1, self@.len() as int);
                assert(self@.take(self@.len() as int) =~= self@);
            }
            let e = &self.entries[i];
            if e.start_time >= start_ts && e.start_time < end_ts {
                match (secs.checked_add(e.duration as i128), amount.checked_add(e.amount)) {
                    (Some(s2), Some(a2)) => {
                        secs = s2;
                        amount = a2;
                    },
                    _ => {
                        return None;
                    },
                }
            }
            i = i + 1;
        }
        assert(self@.take(self@.len() as int) =~= self@);
        Some(TodayTotals { total_seconds: secs, total_amount: amount })
    }

    /// The rate of the entry that starts last, or zero on an empty ledger.
    pub fn last_used_hourly_rate(&self) -> (r: u64)
        requires
            self.wf(),
        ensures
            r == if self@.len() == 0 {
                0
            } else {
                self@.last().hourly_rate
            },
    {
        let n = self.entries.len();
        if n == 0 {
            0
        } else {
            self.entries[n - 1].hourly_rate
        }
    }

    /// Every entry, earliest first.
    pub fn all_entries(&self) -> (r: Vec<TimeEntry>)
        requires
            self.wf(),
        ensures
            views(r@) == self@,
    {
        let mut r: Vec<TimeEntry> = Vec::new();
        let mut i: usize = 0;
        while i < self.entries.len()
            invariant
                self.wf(),
                i <= self@.len(),
                views(r@) == self@.take(i as int),
            decreases self@.len() - i,
        {
            let ghost before = r@;
            let c = self.entries[i].clone_entry();
            r.push(c);
            proof {
                assert(r@ == before.push(c));
                assert(views(r@) =~= views(before).push(c@));
                assert(self@.take(i + 1) =~= self@.take(i as int).push(self@[i as int]));
            }
            i = i + 1;
        }
        assert(self@.take(self@.len() as int) =~= self@);
        r
    }

    /// Takes back a stored row under its own id, recomputing its duration
    /// and amount. A row with an empty interval is refused, and so is one
    /// whose id is not positive, is taken, or is the largest `i64`.
    pub fn restore_entry(
        &mut self,
        id: i64,
        project_name: String,
        start_time: i64,
        end_time: i64,
        hourly_rate: u64,
    ) -> (r: Result<TimeEntry, TrackerError>)
        requires
            old(self).wf(),
        ensures
            final(self).wf(),
            !valid_interval(start_time as int, end_time as int) ==> r == Err::<
                TimeEntry,
                TrackerError,
            >(TrackerError::InvalidInterval),
            valid_interval(start_time as int, end_time as int) && (id < 1 || id == i64::MAX
                || has_id(old(self)@, id)) ==> r == Err::<TimeEntry, TrackerError>(
                TrackerError::StorageUnavailable,
            ),
            r is Err ==> final(self)@ == old(self)@,
            valid_interval(start_time as int, end_time as int) && 1 <= id < i64::MAX && !has_id(
                old(self)@,
                id,
            ) ==> r is Ok,
            r matches Ok(e) ==> {
                &&& e@ == entry_of(id, project_name@, start_time, end_time, hourly_rate)
                &&& placed_in_order(old(self)@, final(self)@, e@)
            },
    {
        if !(start_time < end_time && (end_time as i128) - (start_time as i128) <= i64::MAX as i128) {
            return Err(TrackerError::InvalidInterval);
        }
        if id < 1 || id == i64::MAX {
            return Err(TrackerError::StorageUnavailable);
        }
        if self.index_of(id).is_some() {
            return Err(TrackerError::StorageUnavailable);
        }
        let ghost old_view = self@;
        let e = TimeEntry::new(id, project_name, start_time, end_time, hourly_rate);
        let kept = e.clone_entry();
        if self.next_id <= id {
            self.next_id = id + 1;
        }
        proof {
            assert forall|i: int| 0 <= i < self@.len() implies #[trigger] self@[i].id < self.next_id by {}
        }
        assert(self@ == old_view);
        self.place(e);
        Ok(kept)
    }

    /// Records a manual entry over `[start_time, end_time)`: the end must
    /// come after the start; the name is sanitised, and the rate too (an
    /// omitted one is zero).
    pub fn create_time_entry(
        &mut self,
        project_name: String,
        start_time: i64,
        end_time: i64,
        hourly_rate: Option<Option<i64>>,
    ) -> (r: Result<TimeEntry, TrackerError>)
        requires
            old(self).wf(),
        ensures
            final(self).wf(),
            !valid_interval(start_time as int, end_time as int) ==> r == Err::<
                TimeEntry,
                TrackerError,
            >(TrackerError::InvalidInterval),
            valid_interval(start_time as int, end_time as int) && old(self).ids_exhausted() ==> r
                == Err::<TimeEntry, TrackerError>(TrackerError::StorageUnavailable),
            r is Err ==> final(self)@ == old(self)@ && final(self).ids_exhausted() == old(
                self,
            ).ids_exhausted(),
            valid_interval(start_time as int, end_time as int) && !old(self).ids_exhausted()
                ==> r is Ok,
            r matches Ok(e) ==> {
                &&& e@ == entry_of(
                    e.id,
                    sanitized_name(project_name@),
                    start_time,
                    end_time,
                    match hourly_rate {
                        Some(x) => sanitized_rate(x) as u64,
                        None => 0,
                    },
                )
                &&& !has_id(old(self)@, e.id)
                &&& placed_in_order(old(self)@, final(self)@, e@)
            },
    {
        if end_time <= start_time {
            return Err(TrackerError::InvalidInterval);
        }
        let name = sanitize_project_name(project_name);
        let rate = match hourly_rate {
            Some(x) => sanitize_hourly_rate(x),
            None => 0,
        };
        self.insert_entry(name, start_time, end_time, rate)
    }

    /// The entries that an invoice over the window takes, earliest first:
    /// those that start in it, or all of them where no window is given.
    pub fn invoice_entries(&self, window: Option<(i64, i64)>) -> (r: Vec<TimeEntry>)
        requires
            self.wf(),
        ensures
            views(r@) == match window {
                Some((lo, hi)) => self@.filter(window_pred(lo, hi)),
                None => self@,
            },
    {
        match window {
            Some((lo, hi)) => self.entries_between_ascending(lo, hi),
            None => self.all_entries(),
        }
    }

    /// The entries of today's local window, latest first.
    pub fn get_today_entries(&self) -> (r: Result<Vec<TimeEntry>, TrackerError>)
        requires
            self.wf(),
        ensures
            r matches Err(e) ==> e == TrackerError::AmbiguousLocalTime || e
                == TrackerError::ClockUnavailable,
            r matches Ok(v) ==> exists|lo: i64|
                lo <= i64::MAX - DAY_SECONDS && views(v@) == self@.filter(
                    #[trigger] window_pred(lo, (lo + DAY_SECONDS) as i64),
                ).reverse(),
    {
        let (lo, hi) = day_bounds_timestamps()?;
        let v = self.query_entries_between(lo, hi);
        assert(views(v@) == self@.filter(window_pred(lo, (lo + DAY_SECONDS) as i64)).reverse());
        Ok(v)
    }

    /// The totals of today's local window.
    pub fn get_today_total(&self) -> (r: Result<Option<TodayTotals>, TrackerError>)
        requires
            self.wf(),
        ensures
            r matches Err(e) ==> e == TrackerError::AmbiguousLocalTime || e
                == TrackerError::ClockUnavailable,
            r matches Ok(t) ==> exists|lo: i64|
                lo <= i64::MAX - DAY_SECONDS && match t {
                    Some(t) => t.total_seconds == #[trigger] window_seconds(
                        self@,
                        lo,
                        (lo + DAY_SECONDS) as i64,
                    ) && t.total_amount == window_amount(self@, lo, (lo + DAY_SECONDS) as i64),
                    None => window_seconds(self@, lo, (lo + DAY_SECONDS) as i64) > i128::MAX
                        || window_amount(self@, lo, (lo + DAY_SECONDS) as i64) > i128::MAX,
                },
    {
        let (lo, hi) = day_bounds_timestamps()?;
        let t = self.query_totals_between(lo, hi);
        assert(window_seconds(self@, lo, (lo + DAY_SECONDS) as i64) == window_seconds(self@, lo, hi));
        Ok(t)
    }
}

/// Which of the monetary columns an older ledger table lacks.
#[derive(Debug)]
pub struct RateColumns {
    pub add_hourly_rate: bool,
    pub add_amount: bool,
}

/// Given the column names of a stored ledger table, says which monetary
/// columns have to be added (with a zero default) for it to be current.
pub fn missing_rate_columns(columns: &Vec<String>) -> (r: RateColumns)
    ensures
        r.add_hourly_rate <==> !(exists|i: int|
            0 <= i < columns@.len() && #[trigger] columns@[i]@ == "hourly_rate"@),
        r.add_amount <==> !(exists|i: int|
            0 <= i < columns@.len() && #[trigger] columns@[i]@ == "amount"@),
{
    let rate_name = String::from_str("hourly_rate");
    let amount_name = String::from_str("amount");
    let mut has_rate = false;
    let mut has_amount = false;
    let mut i: usize = 0;
    while i < columns.len()
        invariant
            i <= columns@.len(),
            rate_name@ == "hourly_rate"@,
            amount_name@ == "amount"@,
            has_rate <==> exists|k: int| 0 <= k < i && #[trigger] columns@[k]@ == "hourly_rate"@,
            has_amount <==> exists|k: int| 0 <= k < i && #[trigger] columns@[k]@ == "amount"@,
        decreases columns@.len() - i,
    {
        if columns[i] == rate_name {
            has_rate = true;
        }
        if columns[i] == amount_name {
            has_amount = true;
        }
        i = i + 1;
    }
    RateColumns { add_hourly_rate: !has_rate, add_amount: !has_amount }
}

/// The window of the local day that starts at `midnight`, which
/// `day_bounds_from` gives as `[midnight, midnight + 86400)`, takes an entry
/// that starts exactly at midnight and leaves out one that starts exactly
/// one day later.
pub proof fn law_day_window_bounds(s: Seq<EntryView>, midnight: i64, e: EntryView)
    requires
        midnight <= i64::MAX - DAY_SECONDS,
        s.contains(e),
    ensures
        e.start_time == midnight ==> s.filter(
            window_pred(midnight, (midnight + DAY_SECONDS) as i64),
        ).contains(e),
        e.start_time == midnight + DAY_SECONDS ==> !s.filter(
            window_pred(midnight, (midnight + DAY_SECONDS) as i64),
        ).contains(e),
{
    let p = window_pred(midnight, (midnight + DAY_SECONDS) as i64);
    let i = choose|i: int| 0 <= i < s.len() && s[i] == e;
    if e.start_time == midnight {
        s.lemma_filter_contains(p, i);
    }
    if e.start_time == midnight + DAY_SECONDS {
        let f = s.filter(p);
        if f.contains(e) {
            let j = choose|j: int| 0 <= j < f.len() && f[j] == e;
            s.lemma_filter_pred(p, j);
        }
    }
}

} // verus!
