//! The task record: a description with optional metadata and completion
//! state. Timestamps are plain values, counted in seconds; the calendar
//! and the wall clock live elsewhere.

use vstd::prelude::*;
use crate::clock::now_seconds;
use crate::date::{
    spec_day_of, spec_civil_of_day, spec_month_abbrev, spec_pad2, day_of_timestamp, civil_of_day,
    month_abbrev, append_pad2,
};
use crate::text::chars_to_string;

verus! {

/// The window, in seconds, within which a pending task counts as due soon.
pub const DUE_SOON_SECONDS: i64 = 86400;

/// A single task record.
///
/// Well-formedness ties the completion flag to the completion timestamp and
/// keeps the priority, when present, in the 1..=5 band.
pub struct Todo {
    /// Unique identifier, assigned by the owning list and never reused.
    pub id: u32,
    /// Short task text; the store only admits descriptions with visible content.
    pub description: String,
    /// Optional longer notes.
    pub details: Option<String>,
    /// Whether the task has been completed.
    pub completed: bool,
    /// Creation time, in seconds; immutable after construction.
    pub created_at: i64,
    /// Completion time, in seconds; present exactly while `completed` holds.
    pub completed_at: Option<i64>,
    /// Optional due time, in seconds.
    pub due_date: Option<i64>,
    /// Optional priority, 1 (lowest) to 5 (highest).
    pub priority: Option<u8>,
}

impl Todo {
    /// The record keeps its two completion fields in step and its priority in band.
    pub open spec fn wf(self) -> bool {
        &&& self.completed <==> self.completed_at is Some
        &&& match self.priority {
            Some(p) => 1 <= p <= 5,
            None => true,
        }
    }

    /// Builds a fresh, pending task created at `now`.
    pub fn new_at(id: u32, description: String, priority: Option<u8>, now: i64) -> (r: Todo)
        requires
            match priority {
                Some(p) => 1 <= p <= 5,
                None => true,
            },
        ensures
            r.wf(),
            r.id == id,
            r.description == description,
            r.details is None,
            !r.completed,
            r.created_at == now,
            r.completed_at is None,
            r.due_date is None,
            r.priority == priority,
    {
        Todo {
            id,
            description,
            details: None,
            completed: false,
            created_at: now,
            completed_at: None,
            due_date: None,
            priority,
        }
    }

    /// Marks the task complete at `now`; both completion fields move together.
    pub fn complete_at(&mut self, now: i64)
        ensures
            final(self).completed,
            final(self).completed_at == Some(now),
            final(self).id == old(self).id,
            final(self).description == old(self).description,
            final(self).details == old(self).details,
            final(self).created_at == old(self).created_at,
            final(self).due_date == old(self).due_date,
            final(self).priority == old(self).priority,
            old(self).wf() ==> final(self).wf(),
    {
        self.completed = true;
        self.completed_at = Some(now);
    }

    /// Marks the task pending again; both completion fields move together.
    pub fn uncomplete(&mut self)
        ensures
            !final(self).completed,
            final(self).completed_at is None,
            final(self).id == old(self).id,
            final(self).description == old(self).description,
            final(self).details == old(self).details,
            final(self).created_at == old(self).created_at,
            final(self).due_date == old(self).due_date,
            final(self).priority == old(self).priority,
            old(self).wf() ==> final(self).wf(),
    {
        self.completed = false;
        self.completed_at = None;
    }

    /// Whether the task counts as overdue at time `now`: pending, with a due
    /// time strictly in the past.
    pub open spec fn spec_overdue(self, now: i64) -> bool {
        &&& !self.completed
        &&& match self.due_date {
            Some(due) => due < now,
            None => false,
        }
    }

    /// Overdue test against an explicit clock reading.
    pub fn is_overdue_at(&self, now: i64) -> (r: bool)
        ensures
            r == self.spec_overdue(now),
    {
        if self.completed {
            return false;
        }
        match self.due_date {
            Some(due) => due < now,
            None => false,
        }
    }

    /// Whether the task counts as due soon at time `now`: pending, not yet
    /// overdue, and due within the soon window.
    pub open spec fn spec_due_soon(self, now: i64) -> bool {
        &&& !self.completed
        &&& match self.due_date {
            Some(due) => now <= due && due - now <= DUE_SOON_SECONDS,
            None => false,
        }
    }

    /// Due-soon test against an explicit clock reading.
    pub fn is_due_soon_at(&self, now: i64) -> (r: bool)
        ensures
            r == self.spec_due_soon(now),
    {
        if self.completed {
            return false;
        }
        match self.due_date {
            Some(due) => {
                if now <= due {
                    match now.checked_add(DUE_SOON_SECONDS) {
                        Some(limit) => due <= limit,
                        None => true,
                    }
                } else {
                    false
                }
            },
            None => false,
        }
    }

    /// Whether the task is pending and due on the calendar day of `now`.
    pub open spec fn spec_due_today(self, now: i64) -> bool {
        &&& !self.completed
        &&& match self.due_date {
            Some(due) => spec_day_of(due as int) == spec_day_of(now as int),
            None => false,
        }
    }

    /// Due-today test against an explicit clock reading.
    pub fn is_due_today_at(&self, now: i64) -> (r: bool)
        ensures
            r == self.spec_due_today(now),
    {
        if self.completed {
            return false;
        }
        match self.due_date {
            Some(due) => day_of_timestamp(due) == day_of_timestamp(now),
            None => false,
        }
    }

    /// The label a due time carries relative to `now`: the literal words for
    /// the current and the next calendar day, otherwise the month name and
    /// the two-digit day of the month.
    pub open spec fn spec_due_label(due: i64, now: i64) -> Seq<char> {
        let dday = spec_day_of(due as int);
        let nday = spec_day_of(now as int);
        if dday == nday {
            "Today"@
        } else if dday == nday + 1 {
            "Tomorrow"@
        } else {
            let (y, m, d) = spec_civil_of_day(dday);
            spec_month_abbrev(m) + seq![' '] + spec_pad2(d)
        }
    }

    /// Formats the due time against an explicit clock reading; present
    /// exactly when the task has a due time.
    pub fn format_due_date_at(&self, now: i64) -> (r: Option<String>)
        ensures
            r is Some <==> self.due_date is Some,
            r matches Some(s) ==> s@ == Todo::spec_due_label(self.due_date->0, now),
    {
        match self.due_date {
            None => None,
            Some(due) => {
                let dday = day_of_timestamp(due);
                let nday = day_of_timestamp(now);
                if dday == nday {
                    Some(String::from_str("Today"))
                } else if dday == nday + 1 {
                    Some(String::from_str("Tomorrow"))
                } else {
                    let (y, m, d) = civil_of_day(dday);
                    let mut out = month_abbrev(m);
                    out.push(' ');
                    append_pad2(&mut out, d);
                    proof {
                        assert(out@ =~= Todo::spec_due_label(due, now));
                    }
                    Some(chars_to_string(&out))
                }
            },
        }
    }

    /// Builds a fresh, pending task, reading the clock for the creation
    /// time; apart from that time the result is as for `new_at`.
    pub fn new(id: u32, description: String, priority: Option<u8>) -> (r: Todo)
        requires
            match priority {
                Some(p) => 1 <= p <= 5,
                None => true,
            },
        ensures
            r.wf(),
            r.id == id,
            r.description == description,
            r.details is None,
            !r.completed,
            r.completed_at is None,
            r.due_date is None,
            r.priority == priority,
    {
        let now = now_seconds();
        Todo::new_at(id, description, priority, now)
    }

    /// Builds a fresh, pending task with every optional field supplied,
    /// reading the clock for the creation time.
    pub fn new_with_details(
        id: u32,
        description: String,
        details: Option<String>,
        due_date: Option<i64>,
        priority: Option<u8>,
    ) -> (r: Todo)
        requires
            match priority {
                Some(p) => 1 <= p <= 5,
                None => true,
            },
        ensures
            r.wf(),
            r.id == id,
            r.description == description,
            r.details == details,
            !r.completed,
            r.completed_at is None,
            r.due_date == due_date,
            r.priority == priority,
    {
        let now = now_seconds();
        Todo {
            id,
            description,
            details,
            completed: false,
            created_at: now,
            completed_at: None,
            due_date,
            priority,
        }
    }

    /// Marks the task complete, reading the clock for the completion time.
    pub fn complete(&mut self)
        ensures
            final(self).completed,
            final(self).completed_at is Some,
            final(self).id == old(self).id,
            final(self).description == old(self).description,
            final(self).details == old(self).details,
            final(self).created_at == old(self).created_at,
            final(self).due_date == old(self).due_date,
            final(self).priority == old(self).priority,
            old(self).wf() ==> final(self).wf(),
    {
        let now = now_seconds();
        self.complete_at(now);
    }

    /// Overdue test against the clock; the precise contract is on
    /// `is_overdue_at`, which this calls with the reading.
    pub fn is_overdue(&self) -> (r: bool)
        ensures
            r ==> !self.completed && self.due_date is Some,
    {
        let now = now_seconds();
        self.is_overdue_at(now)
    }

    /// Due-soon test against the clock; the precise contract is on
    /// `is_due_soon_at`, which this calls with the reading.
    pub fn is_due_soon(&self) -> (r: bool)
        ensures
            r ==> !self.completed && self.due_date is Some,
    {
        let now = now_seconds();
        self.is_due_soon_at(now)
    }

    /// Formats the due time against the clock; the precise contract is on
    /// `format_due_date_at`, which this calls with the reading.
    pub fn format_due_date(&self) -> (r: Option<String>)
        ensures
            r is Some <==> self.due_date is Some,
    {
        let now = now_seconds();
        self.format_due_date_at(now)
    }
}

} // verus!
