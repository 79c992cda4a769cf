//! The operations on the stored tasks. Each one prepares the statement that
//! the caller runs against the store, after bringing the derived fields of
//! the task up to date; the rows that come back are decoded here.

use vstd::prelude::*;
use crate::category::{Duration, Importance, Priority, Status};
use crate::date::{today, Date};
use crate::error::{Family, TaskError};
use crate::filter::Filter;
use crate::storage::{SqlValue, SqlValueView, Statement, StatementView, TaskRow, TaskRowView};
use crate::task::{Task, TaskView};

verus! {

impl TaskView {
    /// The values of the ten columns that a task writes, in the order
    /// `description, priority, importance, duration, creation_date,
    /// completion_date, start_date, status, grouping, scoring`. A category is
    /// written as its ordinal, an absent date as null.
    pub open spec fn columns(self) -> Seq<SqlValueView> {
        seq![
            SqlValueView::Text(self.description),
            SqlValueView::Integer(self.priority.spec_ordinal() as i64),
            SqlValueView::Integer(self.importance.spec_ordinal() as i64),
            SqlValueView::Integer(self.duration.spec_ordinal() as i64),
            SqlValueView::Date(self.creation_date),
            SqlValue::of_date(self.completion_date),
            SqlValue::of_date(self.start_date),
            SqlValueView::Integer(self.status.spec_ordinal() as i64),
            SqlValueView::Text(self.grouping),
            SqlValueView::Integer(self.scoring as i64),
        ]
    }

    /// The statement that adds the task as a new row.
    pub open spec fn insert_query(self) -> StatementView {
        StatementView {
            sql: "INSERT INTO tasks (description, priority, importance, duration, creation_date, completion_date, start_date, status, grouping, scoring) VALUES (?1, ?2, ?3, ?4, ?5, ?6, ?7, ?8, ?9, ?10);"@,
            params: self.columns(),
        }
    }

    /// The values of the nine columns that an update may change, in the
    /// order `description, priority, importance, duration, completion_date,
    /// start_date, status, grouping, scoring`. The creation date is not among
    /// them: it is written once, on insert.
    pub open spec fn changes(self) -> Seq<SqlValueView> {
        seq![
            SqlValueView::Text(self.description),
            SqlValueView::Integer(self.priority.spec_ordinal() as i64),
            SqlValueView::Integer(self.importance.spec_ordinal() as i64),
            SqlValueView::Integer(self.duration.spec_ordinal() as i64),
            SqlValue::of_date(self.completion_date),
            SqlValue::of_date(self.start_date),
            SqlValueView::Integer(self.status.spec_ordinal() as i64),
            SqlValueView::Text(self.grouping),
            SqlValueView::Integer(self.scoring as i64),
        ]
    }

    /// The statement that overwrites the row `id` with the task, but for
    /// the id and the creation date of the row, which stay as they are.
    pub open spec fn update_query(self, id: u32) -> StatementView {
        StatementView {
            sql: "UPDATE tasks SET description = ?1, priority = ?2, importance = ?3, duration = ?4, completion_date = ?5, start_date = ?6, status = ?7, grouping = ?8, scoring = ?9 WHERE id = ?10;"@,
            params: self.changes().push(SqlValueView::Integer(id as i64)),
        }
    }

    /// The task after a change of status alone on the day `today`: finishing
    /// sets the completion date, starting sets the start date, and nothing
    /// else changes; the score in particular stays as it was.
    pub open spec fn with_status(self, status: Status, today: Date) -> TaskView {
        match status {
            Status::Finished => TaskView { status, completion_date: Some(today), ..self },
            Status::InProgress => TaskView { status, start_date: Some(today), ..self },
            _ => TaskView { status, ..self },
        }
    }
}

/// The statement that removes the row `id`.
pub open spec fn delete_query(id: u32) -> StatementView {
    StatementView {
        sql: "DELETE FROM tasks WHERE id=?1;"@,
        params: seq![SqlValueView::Integer(id as i64)],
    }
}

/// The query for the row `id`.
pub open spec fn by_id_query(id: u32) -> StatementView {
    StatementView {
        sql: Filter::select_columns() + " WHERE id = ?1"@,
        params: seq![SqlValueView::Integer(id as i64)],
    }
}

/// The statement that changes the status of the row `id` on the day
/// `today`, together with the one date that the new status sets.
pub open spec fn status_query(id: u32, status: Status, today: Date) -> StatementView {
    let code = SqlValueView::Integer(status.spec_ordinal() as i64);
    let row = SqlValueView::Integer(id as i64);
    match status {
        Status::Finished => StatementView {
            sql: "UPDATE tasks SET status = ?1, completion_date = ?2 WHERE id = ?3;"@,
            params: seq![code, SqlValueView::Date(today), row],
        },
        Status::InProgress => StatementView {
            sql: "UPDATE tasks SET status = ?1, start_date = ?2 WHERE id = ?3;"@,
            params: seq![code, SqlValueView::Date(today), row],
        },
        _ => StatementView {
            sql: "UPDATE tasks SET status = ?1 WHERE id = ?2;"@,
            params: seq![code, row],
        },
    }
}

/// The task that a row holds: the row with its four ordinals decoded. The
/// first ordinal that names no variant, in the order priority, importance,
/// duration, status, is reported.
pub open spec fn decoded(row: TaskRowView) -> Result<TaskView, TaskError> {
    match Priority::spec_from_ordinal(row.priority as int) {
        None => Err(TaskError::InvalidOrdinal { family: Family::Priority, value: row.priority }),
        Some(priority) => match Importance::spec_from_ordinal(row.importance as int) {
            None => Err(TaskError::InvalidOrdinal { family: Family::Importance, value: row.importance }),
            Some(importance) => match Duration::spec_from_ordinal(row.duration as int) {
                None => Err(TaskError::InvalidOrdinal { family: Family::Duration, value: row.duration }),
                Some(duration) => match Status::spec_from_ordinal(row.status as int) {
                    None => Err(TaskError::InvalidOrdinal { family: Family::Status, value: row.status }),
                    Some(status) => Ok(
                        TaskView {
                            id: row.id,
                            description: row.description,
                            priority,
                            importance,
                            duration,
                            creation_date: row.creation_date,
                            completion_date: row.completion_date,
                            start_date: row.start_date,
                            status,
                            grouping: row.grouping,
                            scoring: row.scoring,
                        },
                    ),
                },
            },
        },
    }
}

impl Task {
    /// The values of the ten columns that the task writes.
    fn column_values(&self) -> (v: Vec<SqlValue>)
        ensures
            v@.map_values(|x: SqlValue| x@) == self@.columns(),
    {
        let mut v: Vec<SqlValue> = Vec::new();
        v.push(SqlValue::Text(self.description.clone()));
        v.push(SqlValue::Integer(self.priority.ordinal() as i64));
        v.push(SqlValue::Integer(self.importance.ordinal() as i64));
        v.push(SqlValue::Integer(self.duration.ordinal() as i64));
        v.push(SqlValue::Date(self.creation_date));
        v.push(SqlValue::from_date(self.completion_date));
        v.push(SqlValue::from_date(self.start_date));
        v.push(SqlValue::Integer(self.status.ordinal() as i64));
        v.push(SqlValue::Text(self.grouping.clone()));
        v.push(SqlValue::Integer(self.scoring as i64));
        v
    }

    /// The values of the nine columns that an update may change.
    fn change_values(&self) -> (v: Vec<SqlValue>)
        ensures
            v@.map_values(|x: SqlValue| x@) == self@.changes(),
    {
        let mut v: Vec<SqlValue> = Vec::new();
        v.push(SqlValue::Text(self.description.clone()));
        v.push(SqlValue::Integer(self.priority.ordinal() as i64));
        v.push(SqlValue::Integer(self.importance.ordinal() as i64));
        v.push(SqlValue::Integer(self.duration.ordinal() as i64));
        v.push(SqlValue::from_date(self.completion_date));
        v.push(SqlValue::from_date(self.start_date));
        v.push(SqlValue::Integer(self.status.ordinal() as i64));
        v.push(SqlValue::Text(self.grouping.clone()));
        v.push(SqlValue::Integer(self.scoring as i64));
        assert(v@.map_values(|x: SqlValue| x@) =~= self@.changes());
        v
    }

    /// Builds the statement that adds the task, as it stands, as a new row.
    pub fn insert_statement(&self) -> (stmt: Statement)
        ensures
            stmt@ == self@.insert_query(),
            self@.has_valid_dates() ==> stmt@.has_valid_dates(),
    {
        let sql = "INSERT INTO tasks (description, priority, importance, duration, creation_date, completion_date, start_date, status, grouping, scoring) VALUES (?1, ?2, ?3, ?4, ?5, ?6, ?7, ?8, ?9, ?10);".to_owned();
        Statement { sql, params: self.column_values() }
    }

    /// Builds the statement that overwrites the row `id` with the task as it
    /// stands. The creation date of the row is not written.
    pub fn update_statement(&self, id: u32) -> (stmt: Statement)
        ensures
            stmt@ == self@.update_query(id),
            self@.has_valid_dates() ==> stmt@.has_valid_dates(),
    {
        let sql = "UPDATE tasks SET description = ?1, priority = ?2, importance = ?3, duration = ?4, completion_date = ?5, start_date = ?6, status = ?7, grouping = ?8, scoring = ?9 WHERE id = ?10;".to_owned();
        let mut params = self.change_values();
        params.push(SqlValue::Integer(id as i64));
        assert(params@.map_values(|x: SqlValue| x@) =~= self@.update_query(id).params);
        Statement { sql, params }
    }

    /// Builds the statement that changes the status of the row `id` on the
    /// day `today`.
    pub fn status_statement(id: u32, status: Status, today: Date) -> (stmt: Statement)
        ensures
            stmt@ == status_query(id, status, today),
            today.is_valid() ==> stmt@.has_valid_dates(),
    {
        let mut params: Vec<SqlValue> = Vec::new();
        params.push(SqlValue::Integer(status.ordinal() as i64));
        let sql = match status {
            Status::Finished => {
                params.push(SqlValue::Date(today));
                "UPDATE tasks SET status = ?1, completion_date = ?2 WHERE id = ?3;".to_owned()
            },
            Status::InProgress => {
                params.push(SqlValue::Date(today));
                "UPDATE tasks SET status = ?1, start_date = ?2 WHERE id = ?3;".to_owned()
            },
            _ => "UPDATE tasks SET status = ?1 WHERE id = ?2;".to_owned(),
        };
        params.push(SqlValue::Integer(id as i64));
        assert(params@.map_values(|x: SqlValue| x@) =~= status_query(id, status, today).params);
        Statement { sql, params }
    }

    /// Changes the status alone, as the statement of `update_status` does to
    /// the row: the one date that the new status sets is set to `today`, and
    /// the score is left as it was.
    pub fn set_status(&mut self, status: Status, today: Date)
        ensures
            final(self)@ == old(self)@.with_status(status, today),
            old(self)@.has_valid_dates() && today.is_valid() ==> final(self)@.has_valid_dates(),
    {
        self.status = status;
        match status {
            Status::Finished => {
                self.completion_date = Some(today);
            },
            Status::InProgress => {
                self.start_date = Some(today);
            },
            _ => {},
        }
    }

    /// Prepares the insertion of the task: recomputes its score, brings its
    /// dates in line with its status as of the current day, and returns the
    /// statement that adds it as a new row.
    pub fn insert(&mut self) -> (stmt: Statement)
        ensures
            exists|today: Date|
                today.is_valid() && final(self)@ == #[trigger] old(self)@.saved(today),
            stmt@ == final(self)@.insert_query(),
            old(self)@.has_valid_dates() ==> final(self)@.has_valid_dates()
                && stmt@.has_valid_dates(),
    {
        self.update_scoring();
        let day = today();
        self.apply_dates(day);
        assert(day.is_valid() && self@ == old(self)@.saved(day));
        self.insert_statement()
    }

    /// Prepares the update of the row `id`: recomputes the score of the
    /// task, brings its dates in line with its status as of the current day,
    /// and returns the statement that overwrites the row with it. The row
    /// keeps its creation date, whatever that of the task is.
    pub fn update(&mut self, id: u32) -> (stmt: Statement)
        ensures
            exists|today: Date|
                today.is_valid() && final(self)@ == #[trigger] old(self)@.saved(today),
            stmt@ == final(self)@.update_query(id),
            old(self)@.has_valid_dates() ==> final(self)@.has_valid_dates()
                && stmt@.has_valid_dates(),
    {
        self.update_scoring();
        let day = today();
        self.apply_dates(day);
        assert(day.is_valid() && self@ == old(self)@.saved(day));
        self.update_statement(id)
    }

    /// Returns the statement that changes the status of the row `id` as of
    /// the current day. Only the status and the one date it sets are
    /// written: the stored score is not recomputed.
    pub fn update_status(id: u32, status: Status) -> (stmt: Statement)
        ensures
            exists|today: Date|
                today.is_valid() && stmt@ == #[trigger] status_query(id, status, today),
            stmt@.has_valid_dates(),
    {
        let day = today();
        let stmt = Task::status_statement(id, status, day);
        stmt
    }

    /// Returns the statement that removes the row `id`. A store that holds
    /// no such row removes nothing and reports no error.
    pub fn delete(id: u32) -> (stmt: Statement)
        ensures
            stmt@ == delete_query(id),
            stmt@.has_valid_dates(),
    {
        let sql = "DELETE FROM tasks WHERE id=?1;".to_owned();
        let mut params: Vec<SqlValue> = Vec::new();
        params.push(SqlValue::Integer(id as i64));
        assert(params@.map_values(|x: SqlValue| x@) =~= delete_query(id).params);
        Statement { sql, params }
    }

    /// Returns the query for the row `id`.
    pub fn get_by_id(id: u32) -> (stmt: Statement)
        ensures
            stmt@ == by_id_query(id),
            stmt@.has_valid_dates(),
    {
        let columns = "SELECT id, description, priority, importance, duration, creation_date, completion_date, start_date, status, grouping, scoring FROM tasks".to_owned();
        let sql = columns.concat(" WHERE id = ?1");
        let mut params: Vec<SqlValue> = Vec::new();
        params.push(SqlValue::Integer(id as i64));
        assert(params@.map_values(|x: SqlValue| x@) =~= by_id_query(id).params);
        Statement { sql, params }
    }

    /// Returns the query for the tasks of the filter as of the current day.
    pub fn get_with_filter(filter: &Filter) -> (stmt: Statement)
        ensures
            exists|today: Date| today.is_valid() && stmt@ == #[trigger] filter.query(today),
            stmt@.has_valid_dates(),
    {
        let day = today();
        let stmt = filter.statement(day);
        stmt
    }

    /// Decodes a row into a task.
    pub fn from_row(row: &TaskRow) -> (r: Result<Task, TaskError>)
        ensures
            match r {
                Ok(task) => decoded(row@) == Ok::<TaskView, TaskError>(task@),
                Err(e) => decoded(row@) == Err::<TaskView, TaskError>(e),
            },
            r matches Ok(task) ==> task@.has_valid_dates() == row@.has_valid_dates(),
    {
        let priority = match Priority::from_ordinal(row.priority) {
            Ok(v) => v,
            Err(e) => { return Err(e); },
        };
        let importance = match Importance::from_ordinal(row.importance) {
            Ok(v) => v,
            Err(e) => { return Err(e); },
        };
        let duration = match Duration::from_ordinal(row.duration) {
            Ok(v) => v,
            Err(e) => { return Err(e); },
        };
        let status = match Status::from_ordinal(row.status) {
            Ok(v) => v,
            Err(e) => { return Err(e); },
        };
        Ok(
            Task {
                id: row.id,
                description: row.description.clone(),
                priority,
                importance,
                duration,
                creation_date: row.creation_date,
                completion_date: row.completion_date,
                start_date: row.start_date,
                status,
                grouping: row.grouping.clone(),
                scoring: row.scoring,
            },
        )
    }
}

/// Whether the row at `k` is the first that does not decode, and `e` is
/// what is wrong with it.
pub open spec fn first_failure(rows: Seq<TaskRow>, k: int, e: TaskError) -> bool {
    &&& 0 <= k < rows.len()
    &&& decoded(rows[k]@) == Err::<TaskView, TaskError>(e)
    &&& forall|j: int| 0 <= j < k ==> (#[trigger] decoded(rows[j]@)) is Ok
}

impl Task {
    /// Decodes the rows of a query, in order. One row that does not decode
    /// fails the whole: the error is that of the first such row.
    pub fn from_rows(rows: &Vec<TaskRow>) -> (r: Result<Vec<Task>, TaskError>)
        ensures
            match r {
                Ok(tasks) => {
                    &&& tasks@.len() == rows@.len()
                    &&& forall|i: int|
                        0 <= i < rows@.len() ==> decoded(rows@[i]@) == Ok::<TaskView, TaskError>(
                            (#[trigger] tasks@[i])@,
                        )
                },
                Err(e) => exists|k: int| first_failure(rows@, k, e),
            },
    {
        let mut tasks: Vec<Task> = Vec::new();
        let mut i: usize = 0;
        while i < rows.len()
            invariant
                0 <= i <= rows@.len(),
                tasks@.len() == i,
                forall|j: int|
                    0 <= j < i ==> decoded(rows@[j]@) == Ok::<TaskView, TaskError>(
                        (#[trigger] tasks@[j])@,
                    ),
            decreases rows@.len() - i,
        {
            match Task::from_row(&rows[i]) {
                Ok(task) => {
                    tasks.push(task);
                },
                Err(e) => {
                    proof {
                        assert forall|j: int| 0 <= j < i implies (#[trigger] decoded(
                            rows@[j]@,
                        )) is Ok by {
                            assert(decoded(rows@[j]@) == Ok::<TaskView, TaskError>(tasks@[j]@));
                        }
                        assert(first_failure(rows@, i as int, e));
                    }
                    return Err(e);
                },
            }
            i += 1;
        }
        Ok(tasks)
    }

    /// Reads the answer to a query by id: the task of the first row, or
    /// `NotFound` where the store returned no row.
    pub fn found(rows: &Vec<TaskRow>) -> (r: Result<Task, TaskError>)
        ensures
            match r {
                Ok(task) => rows@.len() > 0 && decoded(rows@[0]@) == Ok::<TaskView, TaskError>(
                    task@,
                ),
                Err(e) => if rows@.len() == 0 {
                    e == TaskError::NotFound
                } else {
                    decoded(rows@[0]@) == Err::<TaskView, TaskError>(e)
                },
            },
    {
        if rows.len() == 0 {
            Err(TaskError::NotFound)
        } else {
            Task::from_row(&rows[0])
        }
    }

    /// Records the id that the store gave the task on insert. The store
    /// counts rows in 64 bits; an id that does not fit the task's is
    /// reported as a fault of the store and leaves the task as it was.
    pub fn assign_id(&mut self, rowid: i64) -> (r: Result<u32, TaskError>)
        ensures
            match r {
                Ok(id) => id == rowid && final(self)@ == (TaskView { id, ..old(self)@ }),
                Err(e) => e == TaskError::StorageError && !(0 <= rowid <= u32::MAX) && final(self)@
                    == old(self)@,
            },
    {
        if 0 <= rowid && rowid <= 4294967295 {
            let id = rowid as u32;
            self.id = id;
            Ok(id)
        } else {
            Err(TaskError::StorageError)
        }
    }
}

/// A task created to do has no dates when it is first saved. A change of
/// status to in progress then gives it the day of the change as its start
/// date and leaves it without a completion date; a later change to finished
/// gives it the day of that change as its completion date and keeps the
/// start date.
pub proof fn status_changes_set_one_date_each(
    created: Date,
    started: Date,
    finished: Date,
    task: TaskView,
)
    requires
        task.status == Status::ToDo,
        task.start_date is None,
        task.completion_date is None,
    ensures
        ({
            let stored = task.saved(created);
            let in_progress = stored.with_status(Status::InProgress, started);
            let done = in_progress.with_status(Status::Finished, finished);
            &&& stored.start_date is None && stored.completion_date is None
            &&& in_progress.start_date == Some(started) && in_progress.completion_date is None
            &&& done.completion_date == Some(finished) && done.start_date == Some(started)
        }),
        ({
            let stored = task.saved(created);
            let in_progress = (TaskView { status: Status::InProgress, ..stored }).saved(started);
            let done = (TaskView { status: Status::Finished, ..in_progress }).saved(finished);
            &&& in_progress.start_date == Some(started) && in_progress.completion_date is None
            &&& done.completion_date == Some(finished) && done.start_date == Some(started)
        }),
{
}

/// The creation date of a task is written once, on insert: the statement
/// of an update is the same whatever creation date the supplied task
/// carries, so no update can change the stored one.
pub proof fn update_leaves_creation_date(task: TaskView, other: Date, id: u32)
    ensures
        (TaskView { creation_date: other, ..task }).update_query(id) == task.update_query(id),
{
}

} // verus!
