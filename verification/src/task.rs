//! The task record, the dates that follow its status, and its score.

use vstd::prelude::*;
use crate::category::{Duration, Importance, Priority, Status};
use crate::date::{today, Date};
use crate::score::{compute_score, score};

verus! {

/// A task as the tracker keeps it.
#[derive(Debug, Clone)]
pub struct Task {
    /// Assigned by storage on insert; zero before that.
    pub id: u32,
    pub description: String,
    pub priority: Priority,
    pub importance: Importance,
    pub duration: Duration,
    pub creation_date: Date,
    pub completion_date: Option<Date>,
    pub start_date: Option<Date>,
    pub status: Status,
    pub grouping: String,
    /// Derived from the categories; never taken from a caller.
    pub scoring: u8,
}

/// A task as contracts see it: the texts are sequences of characters.
pub struct TaskView {
    pub id: u32,
    pub description: Seq<char>,
    pub priority: Priority,
    pub importance: Importance,
    pub duration: Duration,
    pub creation_date: Date,
    pub completion_date: Option<Date>,
    pub start_date: Option<Date>,
    pub status: Status,
    pub grouping: Seq<char>,
    pub scoring: u8,
}

impl View for Task {
    type V = TaskView;

    open spec fn view(&self) -> TaskView {
        TaskView {
            id: self.id,
            description: self.description@,
            priority: self.priority,
            importance: self.importance,
            duration: self.duration,
            creation_date: self.creation_date,
            completion_date: self.completion_date,
            start_date: self.start_date,
            status: self.status,
            grouping: self.grouping@,
            scoring: self.scoring,
        }
    }
}

/// The start and completion dates, in this order, that a task has after it
/// is saved on the day `today` with the given status and dates. Finishing
/// sets the completion date and, if the task was never started, the start
/// date too; starting sets the start date and clears the completion date;
/// any other status leaves both as they are.
pub open spec fn next_dates(
    status: Status,
    start_date: Option<Date>,
    completion_date: Option<Date>,
    today: Date,
) -> (Option<Date>, Option<Date>) {
    match status {
        Status::Finished => (
            if start_date is None {
                Some(today)
            } else {
                start_date
            },
            Some(today),
        ),
        Status::InProgress => (Some(today), None),
        _ => (start_date, completion_date),
    }
}

/// Computes the start and completion dates, in this order, of a task saved
/// today with the given status and dates.
pub fn derive_dates(
    status: Status,
    start_date: Option<Date>,
    completion_date: Option<Date>,
    today: Date,
) -> (dates: (Option<Date>, Option<Date>))
    ensures
        dates == next_dates(status, start_date, completion_date, today),
{
    match status {
        Status::Finished => {
            let start = match start_date {
                None => Some(today),
                Some(d) => Some(d),
            };
            (start, Some(today))
        },
        Status::InProgress => (Some(today), None),
        _ => (start_date, completion_date),
    }
}

impl TaskView {
    /// The description of a task that has not been given one.
    pub open spec fn default_description() -> Seq<char> {
        "Description de la tâche"@
    }

    /// The task that construction yields on the day `today`.
    pub open spec fn fresh(today: Date) -> TaskView {
        TaskView {
            id: 0,
            description: TaskView::default_description(),
            priority: Priority::ToBeDefined,
            importance: Importance::ToBeDefined,
            duration: Duration::ToBeDefined,
            creation_date: today,
            completion_date: None,
            start_date: None,
            status: Status::ToDo,
            grouping: Seq::empty(),
            scoring: 0,
        }
    }

    /// The task with its dates brought in line with its status.
    pub open spec fn dated(self, today: Date) -> TaskView {
        let dates = next_dates(self.status, self.start_date, self.completion_date, today);
        TaskView { start_date: dates.0, completion_date: dates.1, ..self }
    }

    /// The task with its score recomputed from its categories.
    pub open spec fn scored(self) -> TaskView {
        TaskView {
            scoring: score(self.priority, self.importance, self.duration, self.status) as u8,
            ..self
        }
    }

    /// The task as it is written to storage on the day `today`.
    pub open spec fn saved(self, today: Date) -> TaskView {
        self.scored().dated(today)
    }

    /// Every date of the task is a calendar day.
    pub open spec fn has_valid_dates(self) -> bool {
        &&& self.creation_date.is_valid()
        &&& self.start_date matches Some(d) ==> d.is_valid()
        &&& self.completion_date matches Some(d) ==> d.is_valid()
    }
}

impl Task {
    /// A task with the default fields, created on the day `today`.
    pub fn new(today: Date) -> (task: Task)
        ensures
            task@ == TaskView::fresh(today),
            today.is_valid() ==> task@.has_valid_dates(),
    {
        Task {
            id: 0,
            description: "Description de la tâche".to_owned(),
            priority: Priority::ToBeDefined,
            importance: Importance::ToBeDefined,
            duration: Duration::ToBeDefined,
            creation_date: today,
            completion_date: None,
            start_date: None,
            status: Status::ToDo,
            grouping: String::new(),
            scoring: 0,
        }
    }

    /// Brings the dates in line with the status, as of the day `today`.
    pub fn apply_dates(&mut self, today: Date)
        ensures
            final(self)@ == old(self)@.dated(today),
            old(self)@.has_valid_dates() && today.is_valid() ==> final(self)@.has_valid_dates(),
    {
        let dates = derive_dates(self.status, self.start_date, self.completion_date, today);
        self.start_date = dates.0;
        self.completion_date = dates.1;
    }

    /// Brings the dates in line with the status, as of the current day.
    pub fn update_date(&mut self)
        ensures
            exists|today: Date| today.is_valid() && final(self)@ == #[trigger] old(self)@.dated(today),
            old(self)@.has_valid_dates() ==> final(self)@.has_valid_dates(),
    {
        let day = today();
        self.apply_dates(day);
    }

    /// Recomputes the score from the categories.
    pub fn update_scoring(&mut self)
        ensures
            final(self)@ == old(self)@.scored(),
            final(self)@.has_valid_dates() == old(self)@.has_valid_dates(),
    {
        self.scoring = compute_score(self.priority, self.importance, self.duration, self.status);
    }
}

impl Default for Task {
    /// A task with the default fields, created on the current day.
    fn default() -> (task: Task)
        ensures
            exists|today: Date| today.is_valid() && task@ == #[trigger] TaskView::fresh(today),
            task@.has_valid_dates(),
    {
        let day = today();
        let task = Task::new(day);
        task
    }
}

/// Saving a finished task that has a start date keeps that start date and
/// sets the completion date to the day of the save: a second save on a later
/// day moves the completion date again and still keeps the start date.
pub proof fn finishing_keeps_start_and_moves_completion(
    start: Date,
    completion: Option<Date>,
    first_day: Date,
    second_day: Date,
)
    ensures
        ({
            let once = next_dates(Status::Finished, Some(start), completion, first_day);
            let twice = next_dates(Status::Finished, once.0, once.1, second_day);
            &&& once == (Some(start), Some(first_day))
            &&& twice == (Some(start), Some(second_day))
        }),
{
}

/// Starting a task sets its start date to the day of the save and clears
/// its completion date, whatever the two dates were.
pub proof fn starting_clears_completion(
    start: Option<Date>,
    completion: Option<Date>,
    today: Date,
)
    ensures
        next_dates(Status::InProgress, start, completion, today) == (Some(today), None::<Date>),
{
}

/// Saving keeps the dates of a task calendar days: the only date that a
/// save puts in is the day of the save.
pub proof fn saving_keeps_dates_valid(task: TaskView, today: Date)
    requires
        task.has_valid_dates(),
        today.is_valid(),
    ensures
        task.dated(today).has_valid_dates(),
        task.scored().has_valid_dates(),
        task.saved(today).has_valid_dates(),
        task.saved(today).creation_date == task.creation_date,
{
}

} // verus!
