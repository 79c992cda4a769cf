//! The named filters. Each stands for a predicate on tasks and an order in
//! which the accepted tasks are listed, and is turned into a query on the
//! table of tasks.

use vstd::prelude::*;
use vstd::string::StringExecFns;
use crate::category::{Duration, Importance, Priority, Status};
use crate::date::Date;
use crate::storage::{SqlValue, SqlValueView, Statement, StatementView};
use crate::task::{Task, TaskView};

verus! {

/// A named selection of tasks.
#[derive(Debug, Clone, Copy, PartialEq, Eq, Structural, Hash)]
pub enum Filter {
    /// Every task but the finished and the canceled ones.
    DailyWork,
    /// The tasks finished today.
    WorkCompleted,
    /// Every task.
    All,
    /// The blocked tasks.
    Blocked,
    /// The tasks still to do, highest duration ordinal first: the very
    /// short ones lead, those without a duration come last.
    Quick,
    /// The unfinished tasks that lack a priority, an importance or a duration.
    UnClassified,
}

/// The order in which a filter lists its tasks.
#[derive(Debug, Clone, Copy, PartialEq, Eq, Structural, Hash)]
pub enum SortOrder {
    /// Highest score first.
    ByScore,
    /// Highest duration ordinal first; among equal durations, highest score
    /// first.
    ByDurationThenScore,
}

impl SortOrder {
    /// Whether `a` may stand before `b` in a list in this order.
    pub open spec fn in_order(self, a: TaskView, b: TaskView) -> bool {
        match self {
            SortOrder::ByScore => a.scoring >= b.scoring,
            SortOrder::ByDurationThenScore => {
                ||| a.duration.spec_ordinal() > b.duration.spec_ordinal()
                ||| a.duration.spec_ordinal() == b.duration.spec_ordinal() && a.scoring
                    >= b.scoring
            },
        }
    }

    /// Whether every task of the list may stand before all that follow it.
    pub open spec fn sorted(self, tasks: Seq<TaskView>) -> bool {
        forall|i: int, j: int|
            0 <= i < j < tasks.len() ==> self.in_order(#[trigger] tasks[i], #[trigger] tasks[j])
    }

    /// Decides whether `a` may stand before `b`.
    pub fn precedes(&self, a: &Task, b: &Task) -> (r: bool)
        ensures
            r == self.in_order(a@, b@),
    {
        match self {
            SortOrder::ByScore => a.scoring >= b.scoring,
            SortOrder::ByDurationThenScore => {
                let da = a.duration.ordinal();
                let db = b.duration.ordinal();
                da > db || (da == db && a.scoring >= b.scoring)
            },
        }
    }

    /// The clause that asks the store for this order.
    pub open spec fn clause(self) -> Seq<char> {
        match self {
            SortOrder::ByScore => " ORDER BY scoring desc"@,
            SortOrder::ByDurationThenScore => " ORDER BY duration desc, scoring desc"@,
        }
    }
}

impl Filter {
    /// Whether the filter accepts the task on the day `today`.
    pub open spec fn accepts(self, task: TaskView, today: Date) -> bool {
        match self {
            Filter::All => true,
            Filter::DailyWork => task.status != Status::Finished && task.status
                != Status::Canceled,
            Filter::WorkCompleted => task.status == Status::Finished && task.completion_date
                == Some(today),
            Filter::Blocked => task.status == Status::Blocked,
            Filter::Quick => task.status == Status::ToDo,
            Filter::UnClassified => task.status != Status::Finished && (task.priority
                == Priority::ToBeDefined || task.importance == Importance::ToBeDefined
                || task.duration == Duration::ToBeDefined),
        }
    }

    /// The order in which the filter lists the tasks it accepts.
    pub open spec fn sort_order(self) -> SortOrder {
        match self {
            Filter::Quick | Filter::UnClassified => SortOrder::ByDurationThenScore,
            _ => SortOrder::ByScore,
        }
    }

    /// Decides whether the filter accepts the task on the day `today`.
    pub fn matches(&self, task: &Task, today: Date) -> (r: bool)
        ensures
            r == self.accepts(task@, today),
    {
        match self {
            Filter::All => true,
            Filter::DailyWork => task.status != Status::Finished && task.status
                != Status::Canceled,
            Filter::WorkCompleted => task.status == Status::Finished && match task.completion_date {
                Some(d) => d == today,
                None => false,
            },
            Filter::Blocked => task.status == Status::Blocked,
            Filter::Quick => task.status == Status::ToDo,
            Filter::UnClassified => task.status != Status::Finished && (task.priority
                == Priority::ToBeDefined || task.importance == Importance::ToBeDefined
                || task.duration == Duration::ToBeDefined),
        }
    }

    /// Gives the order in which the filter lists the tasks it accepts.
    pub fn order(&self) -> (o: SortOrder)
        ensures
            o == self.sort_order(),
    {
        match self {
            Filter::Quick | Filter::UnClassified => SortOrder::ByDurationThenScore,
            _ => SortOrder::ByScore,
        }
    }

    /// The part of every query that names the columns and the table.
    pub open spec fn select_columns() -> Seq<char> {
        "SELECT id, description, priority, importance, duration, creation_date, completion_date, start_date, status, grouping, scoring FROM tasks"@
    }

    /// The condition of the filter, over numbered parameters; empty where
    /// the filter accepts every task.
    pub open spec fn condition(self) -> Seq<char> {
        match self {
            Filter::All => Seq::empty(),
            Filter::DailyWork => " WHERE status != ?1 and status != ?2"@,
            Filter::WorkCompleted => " WHERE status = ?1 and completion_date = ?2"@,
            Filter::Blocked => " WHERE status = ?1"@,
            Filter::Quick => " WHERE status = ?1"@,
            Filter::UnClassified => " WHERE status != ?1 and (priority = ?2 or importance = ?3 or duration = ?4)"@,
        }
    }

    /// The values of the condition's parameters on the day `today`: the
    /// ordinals of the categories it names, and the day where it names one.
    pub open spec fn parameters(self, today: Date) -> Seq<SqlValueView> {
        match self {
            Filter::All => Seq::empty(),
            Filter::DailyWork => seq![
                SqlValueView::Integer(Status::Finished.spec_ordinal() as i64),
                SqlValueView::Integer(Status::Canceled.spec_ordinal() as i64),
            ],
            Filter::WorkCompleted => seq![
                SqlValueView::Integer(Status::Finished.spec_ordinal() as i64),
                SqlValueView::Date(today),
            ],
            Filter::Blocked => seq![SqlValueView::Integer(Status::Blocked.spec_ordinal() as i64)],
            Filter::Quick => seq![SqlValueView::Integer(Status::ToDo.spec_ordinal() as i64)],
            Filter::UnClassified => seq![
                SqlValueView::Integer(Status::Finished.spec_ordinal() as i64),
                SqlValueView::Integer(Priority::ToBeDefined.spec_ordinal() as i64),
                SqlValueView::Integer(Importance::ToBeDefined.spec_ordinal() as i64),
                SqlValueView::Integer(Duration::ToBeDefined.spec_ordinal() as i64),
            ],
        }
    }

    /// The query that asks the store for the tasks of the filter.
    pub open spec fn query(self, today: Date) -> StatementView {
        StatementView {
            sql: Filter::select_columns() + self.condition() + self.sort_order().clause(),
            params: self.parameters(today),
        }
    }

    /// Builds the query that asks the store for the tasks of the filter.
    pub fn statement(&self, today: Date) -> (stmt: Statement)
        ensures
            stmt@ == self.query(today),
            today.is_valid() ==> stmt@.has_valid_dates(),
    {
        let columns = "SELECT id, description, priority, importance, duration, creation_date, completion_date, start_date, status, grouping, scoring FROM tasks".to_owned();
        let mut params: Vec<SqlValue> = Vec::new();
        let condition = match self {
            Filter::All => "",
            Filter::DailyWork => {
                params.push(SqlValue::Integer(Status::Finished.ordinal() as i64));
                params.push(SqlValue::Integer(Status::Canceled.ordinal() as i64));
                " WHERE status != ?1 and status != ?2"
            },
            Filter::WorkCompleted => {
                params.push(SqlValue::Integer(Status::Finished.ordinal() as i64));
                params.push(SqlValue::Date(today));
                " WHERE status = ?1 and completion_date = ?2"
            },
            Filter::Blocked => {
                params.push(SqlValue::Integer(Status::Blocked.ordinal() as i64));
                " WHERE status = ?1"
            },
            Filter::Quick => {
                params.push(SqlValue::Integer(Status::ToDo.ordinal() as i64));
                " WHERE status = ?1"
            },
            Filter::UnClassified => {
                params.push(SqlValue::Integer(Status::Finished.ordinal() as i64));
                params.push(SqlValue::Integer(Priority::ToBeDefined.ordinal() as i64));
                params.push(SqlValue::Integer(Importance::ToBeDefined.ordinal() as i64));
                params.push(SqlValue::Integer(Duration::ToBeDefined.ordinal() as i64));
                " WHERE status != ?1 and (priority = ?2 or importance = ?3 or duration = ?4)"
            },
        };
        let order = match self.order() {
            SortOrder::ByScore => " ORDER BY scoring desc",
            SortOrder::ByDurationThenScore => " ORDER BY duration desc, scoring desc",
        };
        let sql = columns.concat(condition).concat(order);
        proof {
            reveal_strlit("");
            assert(params@.map_values(|v: SqlValue| v@) =~= self.parameters(today));
        }
        Statement { sql, params }
    }
}

/// The daily work never holds a finished or a canceled task.
pub proof fn daily_work_excludes_closed(task: TaskView, today: Date)
    requires
        Filter::DailyWork.accepts(task, today),
    ensures
        task.status != Status::Finished,
        task.status != Status::Canceled,
{
}

/// The work completed holds only tasks whose completion date is the current
/// day: one completed on another day is not accepted.
pub proof fn work_completed_only_today(task: TaskView, today: Date)
    ensures
        Filter::WorkCompleted.accepts(task, today) ==> task.completion_date == Some(today),
        task.completion_date != Some(today) ==> !Filter::WorkCompleted.accepts(task, today),
{
}

} // verus!
