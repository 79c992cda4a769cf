//! What passes between the tracker and the table that stores the tasks:
//! statements with their parameters on the way in, rows on the way out.
//! The table has one row per task, with the columns
//! `id, description, priority, importance, duration, creation_date,
//! completion_date, start_date, status, grouping, scoring`.

use vstd::prelude::*;
use crate::date::Date;

verus! {

/// A value bound to a parameter of a statement.
#[derive(Debug, Clone)]
pub enum SqlValue {
    Integer(i64),
    Text(String),
    Date(Date),
    Null,
}

/// A parameter value as contracts see it.
pub enum SqlValueView {
    Integer(i64),
    Text(Seq<char>),
    Date(Date),
    Null,
}

impl View for SqlValue {
    type V = SqlValueView;

    open spec fn view(&self) -> SqlValueView {
        match self {
            SqlValue::Integer(n) => SqlValueView::Integer(*n),
            SqlValue::Text(s) => SqlValueView::Text(s@),
            SqlValue::Date(d) => SqlValueView::Date(*d),
            SqlValue::Null => SqlValueView::Null,
        }
    }
}

impl SqlValueView {
    /// Whether the store can take the value: a date must be a calendar day.
    pub open spec fn is_storable(self) -> bool {
        self matches SqlValueView::Date(d) ==> d.is_valid()
    }
}

impl SqlValue {
    /// The parameter for an optional date: the date, or null.
    pub open spec fn of_date(date: Option<Date>) -> SqlValueView {
        match date {
            Some(d) => SqlValueView::Date(d),
            None => SqlValueView::Null,
        }
    }

    /// Makes the parameter for an optional date.
    pub fn from_date(date: Option<Date>) -> (v: SqlValue)
        ensures
            v@ == SqlValue::of_date(date),
    {
        match date {
            Some(d) => SqlValue::Date(d),
            None => SqlValue::Null,
        }
    }
}

/// A statement for the store: its text, and the values of its numbered
/// parameters in order.
#[derive(Debug, Clone)]
pub struct Statement {
    pub sql: String,
    pub params: Vec<SqlValue>,
}

/// A statement as contracts see it.
pub struct StatementView {
    pub sql: Seq<char>,
    pub params: Seq<SqlValueView>,
}

impl StatementView {
    /// Whether every date among the parameters is a calendar day.
    pub open spec fn has_valid_dates(self) -> bool {
        forall|i: int| 0 <= i < self.params.len() ==> (#[trigger] self.params[i]).is_storable()
    }
}

impl View for Statement {
    type V = StatementView;

    open spec fn view(&self) -> StatementView {
        StatementView { sql: self.sql@, params: self.params@.map_values(|v: SqlValue| v@) }
    }
}

/// A row of the table as the store hands it out: the categories are still
/// ordinals.
#[derive(Debug, Clone)]
pub struct TaskRow {
    pub id: u32,
    pub description: String,
    pub priority: i64,
    pub importance: i64,
    pub duration: i64,
    pub creation_date: Date,
    pub completion_date: Option<Date>,
    pub start_date: Option<Date>,
    pub status: i64,
    pub grouping: String,
    pub scoring: u8,
}

/// A row as contracts see it.
pub struct TaskRowView {
    pub id: u32,
    pub description: Seq<char>,
    pub priority: i64,
    pub importance: i64,
    pub duration: i64,
    pub creation_date: Date,
    pub completion_date: Option<Date>,
    pub start_date: Option<Date>,
    pub status: i64,
    pub grouping: Seq<char>,
    pub scoring: u8,
}

impl TaskRowView {
    /// Every date of the row is a calendar day.
    pub open spec fn has_valid_dates(self) -> bool {
        &&& self.creation_date.is_valid()
        &&& self.start_date matches Some(d) ==> d.is_valid()
        &&& self.completion_date matches Some(d) ==> d.is_valid()
    }
}

impl View for TaskRow {
    type V = TaskRowView;

    open spec fn view(&self) -> TaskRowView {
        TaskRowView {
            id: self.id,
            description: self.description@,
            priority: self.priority,
            importance: self.importance,
            duration: self.duration,
            creation_date: self.creation_date,
            completion_date: self.completion_date,
            start_date: self.start_date,
            status: self.status,
            grouping: self.grouping@,
            scoring: self.scoring,
        }
    }
}

} // verus!
