use task_tracker::category::{Duration, Importance, Priority, Status};
use task_tracker::date::Date;
use task_tracker::filter::{Filter, SortOrder};
use task_tracker::storage::SqlValue;
use task_tracker::task::Task;

const COLUMNS: &str = "SELECT id, description, priority, importance, duration, creation_date, completion_date, start_date, status, grouping, scoring FROM tasks";

fn day(year: i32, month: u32, day: u32) -> Date {
    Date { year, month, day }
}

fn task(priority: Priority, importance: Importance, duration: Duration, status: Status) -> Task {
    let mut t = Task::new(day(2024, 5, 1));
    t.priority = priority;
    t.importance = importance;
    t.duration = duration;
    t.status = status;
    t.update_scoring();
    t
}

fn every_task() -> Vec<Task> {
    let mut v = Vec::new();
    for (p, _) in Priority::all() {
        for (s, _) in Status::all() {
            for (i, _) in Importance::all() {
                for (d, _) in Duration::all() {
                    v.push(task(p, i, d, s));
                }
            }
        }
    }
    v
}

fn integers(params: &[SqlValue]) -> Vec<i64> {
    params
        .iter()
        .map(|p| match p {
            SqlValue::Integer(n) => *n,
            other => panic!("not an integer: {other:?}"),
        })
        .collect()
}

#[test]
fn all_accepts_every_task() {
    let today = day(2024, 5, 6);
    for t in every_task() {
        assert!(Filter::All.matches(&t, today));
    }
}

#[test]
fn daily_work_never_accepts_a_closed_task() {
    let today = day(2024, 5, 6);
    for t in every_task() {
        let accepted = Filter::DailyWork.matches(&t, today);
        let closed = t.status == Status::Finished || t.status == Status::Canceled;
        assert_eq!(accepted, !closed);
    }
}

#[test]
fn work_completed_accepts_only_what_was_finished_today() {
    let today = day(2024, 5, 6);
    let yesterday = day(2024, 5, 5);
    let mut t = task(Priority::Normal, Importance::Normal, Duration::Normal, Status::Finished);
    t.completion_date = Some(today);
    assert!(Filter::WorkCompleted.matches(&t, today));
    t.completion_date = Some(yesterday);
    assert!(!Filter::WorkCompleted.matches(&t, today));
    assert!(Filter::WorkCompleted.matches(&t, yesterday));
    t.completion_date = None;
    assert!(!Filter::WorkCompleted.matches(&t, today));
    t.completion_date = Some(today);
    for status in [Status::ToDo, Status::InProgress, Status::Canceled, Status::Blocked] {
        t.status = status;
        assert!(!Filter::WorkCompleted.matches(&t, today));
    }
}

#[test]
fn blocked_and_quick_go_by_status() {
    let today = day(2024, 5, 6);
    for t in every_task() {
        assert_eq!(Filter::Blocked.matches(&t, today), t.status == Status::Blocked);
        assert_eq!(Filter::Quick.matches(&t, today), t.status == Status::ToDo);
    }
}

#[test]
fn unclassified_wants_an_undefined_category_and_no_finished_task() {
    let today = day(2024, 5, 6);
    for t in every_task() {
        let undefined = t.priority == Priority::ToBeDefined
            || t.importance == Importance::ToBeDefined
            || t.duration == Duration::ToBeDefined;
        assert_eq!(
            Filter::UnClassified.matches(&t, today),
            t.status != Status::Finished && undefined
        );
    }
    let classified = task(Priority::Urgent, Importance::Normal, Duration::Long, Status::ToDo);
    assert!(!Filter::UnClassified.matches(&classified, today));
    let canceled = task(Priority::ToBeDefined, Importance::Normal, Duration::Long, Status::Canceled);
    assert!(Filter::UnClassified.matches(&canceled, today));
}

#[test]
fn filters_order_by_score_or_by_duration_first() {
    assert_eq!(Filter::All.order(), SortOrder::ByScore);
    assert_eq!(Filter::DailyWork.order(), SortOrder::ByScore);
    assert_eq!(Filter::WorkCompleted.order(), SortOrder::ByScore);
    assert_eq!(Filter::Blocked.order(), SortOrder::ByScore);
    assert_eq!(Filter::Quick.order(), SortOrder::ByDurationThenScore);
    assert_eq!(Filter::UnClassified.order(), SortOrder::ByDurationThenScore);
}

#[test]
fn by_score_puts_the_higher_score_first() {
    let high = task(Priority::VeryUrgent, Importance::VeryImportant, Duration::VeryLong, Status::ToDo);
    let low = task(Priority::NotUrgent, Importance::NotImportant, Duration::VeryShort, Status::ToDo);
    assert_eq!(high.scoring, 27);
    assert_eq!(low.scoring, 21);
    assert!(SortOrder::ByScore.precedes(&high, &low));
    assert!(!SortOrder::ByScore.precedes(&low, &high));
    assert!(SortOrder::ByScore.precedes(&high, &high));
}

#[test]
fn by_duration_goes_by_the_ordinal_before_the_score() {
    let high = task(Priority::VeryUrgent, Importance::VeryImportant, Duration::VeryLong, Status::ToDo);
    let low = task(Priority::NotUrgent, Importance::NotImportant, Duration::VeryShort, Status::ToDo);
    // VeryShort has the higher ordinal, so it comes first whatever the scores.
    assert!(SortOrder::ByDurationThenScore.precedes(&low, &high));
    assert!(!SortOrder::ByDurationThenScore.precedes(&high, &low));
    let same_high = task(Priority::VeryUrgent, Importance::Normal, Duration::Long, Status::ToDo);
    let same_low = task(Priority::Normal, Importance::Normal, Duration::Long, Status::ToDo);
    assert!(SortOrder::ByDurationThenScore.precedes(&same_high, &same_low));
    assert!(!SortOrder::ByDurationThenScore.precedes(&same_low, &same_high));
    assert!(SortOrder::ByDurationThenScore.precedes(&same_low, &same_low));
}

#[test]
fn all_query_has_no_condition() {
    let stmt = Filter::All.statement(day(2024, 5, 6));
    assert_eq!(stmt.sql, format!("{COLUMNS} ORDER BY scoring desc"));
    assert!(stmt.params.is_empty());
}

#[test]
fn daily_work_query_excludes_by_ordinal() {
    let stmt = Filter::DailyWork.statement(day(2024, 5, 6));
    assert_eq!(
        stmt.sql,
        format!("{COLUMNS} WHERE status != ?1 and status != ?2 ORDER BY scoring desc")
    );
    assert_eq!(integers(&stmt.params), vec![2, 3]);
}

#[test]
fn work_completed_query_names_the_day() {
    let today = day(2024, 5, 6);
    let stmt = Filter::WorkCompleted.statement(today);
    assert_eq!(
        stmt.sql,
        format!("{COLUMNS} WHERE status = ?1 and completion_date = ?2 ORDER BY scoring desc")
    );
    assert_eq!(stmt.params.len(), 2);
    assert!(matches!(stmt.params[0], SqlValue::Integer(2)));
    assert!(matches!(stmt.params[1], SqlValue::Date(d) if d == today));
}

#[test]
fn blocked_query() {
    let stmt = Filter::Blocked.statement(day(2024, 5, 6));
    assert_eq!(stmt.sql, format!("{COLUMNS} WHERE status = ?1 ORDER BY scoring desc"));
    assert_eq!(integers(&stmt.params), vec![4]);
}

#[test]
fn quick_query() {
    let stmt = Filter::Quick.statement(day(2024, 5, 6));
    assert_eq!(
        stmt.sql,
        format!("{COLUMNS} WHERE status = ?1 ORDER BY duration desc, scoring desc")
    );
    assert_eq!(integers(&stmt.params), vec![0]);
}

#[test]
fn unclassified_query() {
    let stmt = Filter::UnClassified.statement(day(2024, 5, 6));
    assert_eq!(
        stmt.sql,
        format!("{COLUMNS} WHERE status != ?1 and (priority = ?2 or importance = ?3 or duration = ?4) ORDER BY duration desc, scoring desc")
    );
    assert_eq!(integers(&stmt.params), vec![2, 0, 0, 0]);
}

#[test]
fn get_with_filter_builds_the_query_of_the_filter() {
    for filter in [Filter::All, Filter::DailyWork, Filter::Blocked, Filter::Quick, Filter::UnClassified] {
        let expected = filter.statement(day(2024, 5, 6));
        let stmt = Task::get_with_filter(&filter);
        assert_eq!(stmt.sql, expected.sql);
        assert_eq!(integers(&stmt.params), integers(&expected.params));
    }
    let stmt = Task::get_with_filter(&Filter::WorkCompleted);
    assert_eq!(stmt.sql, Filter::WorkCompleted.statement(day(2024, 5, 6)).sql);
    assert!(matches!(stmt.params[1], SqlValue::Date(d) if Date::new(d.year, d.month, d.day).is_some()));
}
