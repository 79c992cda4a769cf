//! What the forms and the query strings of the front end carry, and the
//! tasks that are made of them.

use vstd::prelude::*;
use crate::category::{Duration, Importance, Priority, Status};
use crate::date::{optional_date, parse_optional_date, parsed_ymd, today, trimmed, Date};
use crate::error::TaskError;
use crate::filter::Filter;
use crate::task::{Task, TaskView};

verus! {

/// A form that can be turned into a task.
pub trait ToTask {
    /// The task that the form describes, or the reason why it describes
    /// none.
    fn to_task(&self) -> Result<Task, TaskError>;
}

/// The fields of the form that creates a task.
#[derive(Debug, Clone)]
pub struct CreateTaskForm {
    pub description: String,
    pub priority: Priority,
    pub importance: Importance,
    pub duration: Duration,
    pub status: Status,
    pub grouping: String,
}

/// The fields of the form that edits a task. The two optional dates come as
/// text, blank where there is none.
#[derive(Debug, Clone)]
pub struct EditTaskForm {
    pub description: String,
    pub priority: Priority,
    pub importance: Importance,
    pub duration: Duration,
    pub status: Status,
    pub grouping: String,
    pub creation_date: Date,
    pub completion_date: String,
    pub start_date: String,
    pub scoring: u8,
}

/// The parameter of a change of status.
#[derive(Debug, Clone, Copy)]
pub struct StatusParam {
    pub status: Status,
}

/// The parameter that chooses the filter of a list.
#[derive(Debug, Clone, Copy)]
pub struct FilterParam {
    pub filter: Filter,
}

/// The parameter that names the task to highlight in a list.
#[derive(Debug, Clone, Copy)]
pub struct FocusParam {
    pub id: u32,
}

impl CreateTaskForm {
    /// The task that the form describes when it is filled in on the day
    /// `today`: a fresh task with the fields of the form.
    pub open spec fn described(self, today: Date) -> TaskView {
        TaskView {
            description: self.description@,
            priority: self.priority,
            importance: self.importance,
            duration: self.duration,
            status: self.status,
            grouping: self.grouping@,
            ..TaskView::fresh(today)
        }
    }

    /// Makes the task that the form describes on the day `today`.
    pub fn task_on(&self, today: Date) -> (task: Task)
        ensures
            task@ == self.described(today),
            today.is_valid() ==> task@.has_valid_dates(),
    {
        Task {
            id: 0,
            description: self.description.clone(),
            priority: self.priority,
            importance: self.importance,
            duration: self.duration,
            creation_date: today,
            completion_date: None,
            start_date: None,
            status: self.status,
            grouping: self.grouping.clone(),
            scoring: 0,
        }
    }
}

impl ToTask for CreateTaskForm {
    /// The task that the form describes on the current day; never an error.
    fn to_task(&self) -> (r: Result<Task, TaskError>)
        ensures
            r is Ok,
            exists|today: Date|
                today.is_valid() && r->Ok_0@ == #[trigger] self.described(today),
            r->Ok_0@.has_valid_dates(),
    {
        let day = today();
        let task = self.task_on(day);
        Ok(task)
    }
}

impl EditTaskForm {
    /// The task that the form describes, given what its two date fields
    /// hold: the fields of the form, with the id left at zero.
    pub open spec fn described(
        self,
        completion_date: Option<Date>,
        start_date: Option<Date>,
    ) -> TaskView {
        TaskView {
            id: 0,
            description: self.description@,
            priority: self.priority,
            importance: self.importance,
            duration: self.duration,
            creation_date: self.creation_date,
            completion_date,
            start_date,
            status: self.status,
            grouping: self.grouping@,
            scoring: self.scoring,
        }
    }

    /// What the completion date field holds.
    pub open spec fn completion(self) -> Result<Option<Date>, TaskError> {
        optional_date(trimmed(self.completion_date@).len() == 0, parsed_ymd(self.completion_date@))
    }

    /// What the start date field holds.
    pub open spec fn start(self) -> Result<Option<Date>, TaskError> {
        optional_date(trimmed(self.start_date@).len() == 0, parsed_ymd(self.start_date@))
    }

    /// Makes the task that the form describes from what its two date fields
    /// hold.
    pub fn task_with(&self, completion_date: Option<Date>, start_date: Option<Date>) -> (task: Task)
        ensures
            task@ == self.described(completion_date, start_date),
    {
        Task {
            id: 0,
            description: self.description.clone(),
            priority: self.priority,
            importance: self.importance,
            duration: self.duration,
            creation_date: self.creation_date,
            completion_date,
            start_date,
            status: self.status,
            grouping: self.grouping.clone(),
            scoring: self.scoring,
        }
    }
}

impl ToTask for EditTaskForm {
    /// The task that the form describes. A date field that is neither blank
    /// nor a date makes the form invalid.
    fn to_task(&self) -> (r: Result<Task, TaskError>)
        ensures
            match r {
                Ok(task) => {
                    &&& self.completion() matches Ok(completion_date)
                    &&& self.start() matches Ok(start_date)
                    &&& task@ == self.described(completion_date, start_date)
                },
                Err(e) => e == TaskError::ValidationError && (self.completion() is Err
                    || self.start() is Err),
            },
            r matches Ok(task) ==> (self.creation_date.is_valid() ==> task@.has_valid_dates()),
    {
        let completion_date = match parse_optional_date(self.completion_date.as_str()) {
            Ok(d) => d,
            Err(e) => { return Err(e); },
        };
        let start_date = match parse_optional_date(self.start_date.as_str()) {
            Ok(d) => d,
            Err(e) => { return Err(e); },
        };
        Ok(self.task_with(completion_date, start_date))
    }
}

} // verus!
