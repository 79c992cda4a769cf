//! The urgency score: three additive terms, one per category, times a
//! multiplier that depends on the status.

use vstd::prelude::*;
use crate::category::{Duration, Importance, Priority, Status};

verus! {

/// The term a priority adds: more pressing, more weight.
pub open spec fn priority_weight(p: Priority) -> int {
    match p {
        Priority::ToBeDefined => 0,
        Priority::NotUrgent => 1,
        Priority::Normal => 2,
        Priority::Urgent => 3,
        Priority::VeryUrgent => 4,
    }
}

/// The term an importance adds.
pub open spec fn importance_weight(i: Importance) -> int {
    match i {
        Importance::ToBeDefined => 0,
        Importance::NotImportant => 1,
        Importance::Normal => 2,
        Importance::Important => 3,
        Importance::VeryImportant => 4,
    }
}

/// The term a duration adds: the shorter the task, the more weight.
pub open spec fn duration_weight(d: Duration) -> int {
    match d {
        Duration::ToBeDefined => 0,
        Duration::VeryLong => 1,
        Duration::Long => 2,
        Duration::Normal => 3,
        Duration::Short => 4,
        Duration::VeryShort => 5,
    }
}

/// The factor by which the status scales the sum of the three terms.
pub open spec fn status_multiplier(s: Status) -> int {
    match s {
        Status::Canceled => 0,
        Status::Finished => 1,
        Status::Blocked => 2,
        Status::ToDo => 3,
        Status::InProgress => 4,
    }
}

/// The score of a task with the given categories.
pub open spec fn score(p: Priority, i: Importance, d: Duration, s: Status) -> int {
    (priority_weight(p) + importance_weight(i) + duration_weight(d)) * status_multiplier(s)
}

/// The largest score there is.
pub const MAX_SCORE: u8 = 52;

/// Computes the score of a task with the given categories.
pub fn compute_score(
    priority: Priority,
    importance: Importance,
    duration: Duration,
    status: Status,
) -> (scoring: u8)
    ensures
        scoring == score(priority, importance, duration, status),
{
    let p: u8 = match priority {
        Priority::ToBeDefined => 0,
        Priority::NotUrgent => 1,
        Priority::Normal => 2,
        Priority::Urgent => 3,
        Priority::VeryUrgent => 4,
    };
    let i: u8 = match importance {
        Importance::ToBeDefined => 0,
        Importance::NotImportant => 1,
        Importance::Normal => 2,
        Importance::Important => 3,
        Importance::VeryImportant => 4,
    };
    let d: u8 = match duration {
        Duration::ToBeDefined => 0,
        Duration::VeryLong => 1,
        Duration::Long => 2,
        Duration::Normal => 3,
        Duration::Short => 4,
        Duration::VeryShort => 5,
    };
    let m: u8 = match status {
        Status::Canceled => 0,
        Status::Finished => 1,
        Status::Blocked => 2,
        Status::ToDo => 3,
        Status::InProgress => 4,
    };
    let sum: u8 = p + i + d;
    assert(sum * m <= 52) by (nonlinear_arith)
        requires
            0 <= sum <= 13,
            0 <= m <= 4,
    ;
    sum * m
}

/// A canceled task scores nothing, whatever its other categories.
pub proof fn canceled_scores_zero(p: Priority, i: Importance, d: Duration)
    ensures
        score(p, i, d, Status::Canceled) == 0,
{
}

/// Every score lies between zero and `MAX_SCORE`, and the most pressing,
/// most important, shortest task in progress reaches the maximum.
pub proof fn score_bounds(p: Priority, i: Importance, d: Duration, s: Status)
    ensures
        0 <= score(p, i, d, s) <= MAX_SCORE,
        score(
            Priority::VeryUrgent,
            Importance::VeryImportant,
            Duration::VeryShort,
            Status::InProgress,
        ) == MAX_SCORE,
{
    let sum = priority_weight(p) + importance_weight(i) + duration_weight(d);
    let m = status_multiplier(s);
    assert(0 <= sum * m <= 52) by (nonlinear_arith)
        requires
            0 <= sum <= 13,
            0 <= m <= 4,
    ;
}

} // verus!
