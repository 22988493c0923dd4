//! Weekly repeat schedules, tasks, and the decision which tasks are due today.

use vstd::prelude::*;
use crate::calendar::{weekday_index, weekday_of_date, WallClock, Weekday};

verus! {

/// One flag per day of the week: the task recurs on the days whose flag is set.
#[derive(Clone, Copy, Debug, PartialEq, Eq, Structural)]
pub struct RepeatSchedule {
    pub su: bool,
    pub m: bool,
    pub t: bool,
    pub w: bool,
    pub th: bool,
    pub f: bool,
    pub s: bool,
}

impl RepeatSchedule {
    /// The flag that belongs to `day`.
    pub open spec fn spec_on(&self, day: Weekday) -> bool {
        match day {
            Weekday::Sunday => self.su,
            Weekday::Monday => self.m,
            Weekday::Tuesday => self.t,
            Weekday::Wednesday => self.w,
            Weekday::Thursday => self.th,
            Weekday::Friday => self.f,
            Weekday::Saturday => self.s,
        }
    }

    /// Whether the task recurs on `day`.
    pub fn on(&self, day: Weekday) -> (r: bool)
        ensures
            r == self.spec_on(day),
    {
        match day {
            Weekday::Sunday => self.su,
            Weekday::Monday => self.m,
            Weekday::Tuesday => self.t,
            Weekday::Wednesday => self.w,
            Weekday::Thursday => self.th,
            Weekday::Friday => self.f,
            Weekday::Saturday => self.s,
        }
    }
}

/// A task as the remote tracker reports it.
#[derive(Clone, Debug, PartialEq, Eq)]
pub struct Task {
    pub id: String,
    pub text: String,
    pub completed: bool,
    pub repeat: Option<RepeatSchedule>,
}

impl Task {
    /// A new task equal to this one, field by field.
    pub fn duplicate(&self) -> (r: Task)
        ensures
            r == *self,
    {
        Task {
            id: self.id.clone(),
            text: self.text.clone(),
            completed: self.completed,
            repeat: self.repeat,
        }
    }
}

/// A task with this schedule is shown on `day`: always without a schedule,
/// else exactly when the schedule's flag for `day` is set.
pub open spec fn due_on(repeat: Option<RepeatSchedule>, day: Weekday) -> bool {
    match repeat {
        None => true,
        Some(s) => s.spec_on(day),
    }
}

/// A task with this schedule is due at the reading `now` for a day that
/// begins `day_start_hour` hours after midnight.
pub open spec fn due_at(repeat: Option<RepeatSchedule>, now: WallClock, day_start_hour: int) -> bool {
    due_on(repeat, now.spec_effective_weekday(day_start_hour))
}

/// The tasks of `tasks` that are due on `day`, in their order.
pub open spec fn due_subsequence(tasks: Seq<Task>, day: Weekday) -> Seq<Task>
    decreases tasks.len(),
{
    if tasks.len() == 0 {
        Seq::empty()
    } else {
        let rest = due_subsequence(tasks.drop_last(), day);
        if due_on(tasks.last().repeat, day) {
            rest.push(tasks.last())
        } else {
            rest
        }
    }
}

/// Whether a task with this schedule is shown on `day`.
pub fn is_due_on(repeat: Option<RepeatSchedule>, day: Weekday) -> (r: bool)
    ensures
        r == due_on(repeat, day),
{
    match repeat {
        None => true,
        Some(s) => s.on(day),
    }
}

/// Whether a task with this schedule is due at the reading `now`, for a day
/// that begins `day_start_hour` hours after midnight.
pub fn is_due_today(repeat: Option<RepeatSchedule>, now: &WallClock, day_start_hour: i32) -> (r: bool)
    requires
        now.wf(),
    ensures
        r == due_at(repeat, *now, day_start_hour as int),
        repeat is None ==> r,
{
    match repeat {
        None => true,
        Some(s) => s.on(now.effective_weekday(day_start_hour)),
    }
}

/// The tasks that are due on `day`, in the order given.
pub fn due_tasks_on(tasks: &Vec<Task>, day: Weekday) -> (r: Vec<Task>)
    ensures
        r@ == due_subsequence(tasks@, day),
{
    let mut r: Vec<Task> = Vec::new();
    let mut i: usize = 0;
    while i < tasks.len()
        invariant
            i <= tasks.len(),
            r@ == due_subsequence(tasks@.subrange(0, i as int), day),
        decreases tasks.len() - i,
    {
        let t = &tasks[i];
        assert(tasks@.subrange(0, i + 1).drop_last() =~= tasks@.subrange(0, i as int));
        if is_due_on(t.repeat, day) {
            r.push(t.duplicate());
        }
        i += 1;
    }
    assert(tasks@.subrange(0, tasks.len() as int) =~= tasks@);
    r
}

/// The tasks that are due at the reading `now`, for a day that begins
/// `day_start_hour` hours after midnight, in the order given.
pub fn due_tasks(tasks: &Vec<Task>, now: &WallClock, day_start_hour: i32) -> (r: Vec<Task>)
    requires
        now.wf(),
    ensures
        r@ == due_subsequence(tasks@, now.spec_effective_weekday(day_start_hour as int)),
{
    let day = now.effective_weekday(day_start_hour);
    due_tasks_on(tasks, day)
}

/// With the day starting at midnight, a scheduled task is due exactly when
/// the flag of the reading's own weekday is set.
pub proof fn lemma_midnight_start_uses_date_weekday(s: RepeatSchedule, now: WallClock, day: Weekday)
    requires
        now.wf(),
        weekday_of_date(now.year as int, now.month as int, now.day as int) == weekday_index(day),
    ensures
        now.spec_effective_weekday(0) == day,
        due_at(Some(s), now, 0) == s.spec_on(day),
{
    assert(now.hour as int / 24 == 0);
}

/// A task without a schedule is due at every reading, whatever the day start.
pub proof fn lemma_unscheduled_always_due(now: WallClock, day_start_hour: int)
    ensures
        due_at(None, now, day_start_hour),
{
}

/// A reading taken before the day start falls on the previous weekday: when
/// the hour of the reading is earlier than a day start of at most 24 hours,
/// the effective weekday is the one before the date's own.
pub proof fn lemma_early_hours_roll_back(now: WallClock, day_start_hour: int, day: Weekday)
    requires
        now.wf(),
        now.hour < day_start_hour <= 24,
        weekday_of_date(now.year as int, now.month as int, now.day as int) == weekday_index(day),
    ensures
        weekday_index(now.spec_effective_weekday(day_start_hour)) == (weekday_index(day) + 6) % 7,
{
    assert((now.hour as int - day_start_hour) / 24 == -1);
}

/// Of a task without a schedule and a task scheduled only on Sundays, only the
/// first is due, with the day starting at midnight, at a reading whose date is
/// not a Sunday.
pub proof fn lemma_only_unscheduled_due_off_sunday(a: Task, b: Task, now: WallClock, day: Weekday)
    requires
        now.wf(),
        a.repeat is None,
        b.repeat == Some(
            RepeatSchedule { su: true, m: false, t: false, w: false, th: false, f: false, s: false },
        ),
        weekday_of_date(now.year as int, now.month as int, now.day as int) == weekday_index(day),
        day != Weekday::Sunday,
    ensures
        due_subsequence(seq![a, b], now.spec_effective_weekday(0)) == seq![a],
{
    let s = b.repeat->Some_0;
    lemma_midnight_start_uses_date_weekday(s, now, day);
    let d = now.spec_effective_weekday(0);
    assert(!due_on(b.repeat, d));
    let ab = seq![a, b];
    assert(ab.drop_last() =~= seq![a]);
    assert(seq![a].drop_last() =~= Seq::<Task>::empty());
    assert(due_subsequence(Seq::<Task>::empty(), d) == Seq::<Task>::empty());
    assert(due_subsequence(seq![a], d) =~= seq![a]);
    assert(due_subsequence(ab, d) == due_subsequence(seq![a], d));
}

} // verus!
