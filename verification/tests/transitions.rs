use chrono::Datelike;
use task_tracker::category::{Duration, Importance, Priority, Status};
use task_tracker::date::Date;
use task_tracker::task::{derive_dates, Task};

fn day(year: i32, month: u32, day: u32) -> Date {
    Date { year, month, day }
}

fn current_day() -> Date {
    let now = chrono::Local::now().date_naive();
    Date { year: now.year(), month: now.month(), day: now.day() }
}

#[test]
fn new_task_has_the_default_fields() {
    let task = Task::new(day(2024, 5, 6));
    assert_eq!(task.id, 0);
    assert_eq!(task.description, "Description de la tâche");
    assert_eq!(task.priority, Priority::ToBeDefined);
    assert_eq!(task.importance, Importance::ToBeDefined);
    assert_eq!(task.duration, Duration::ToBeDefined);
    assert_eq!(task.creation_date, day(2024, 5, 6));
    assert_eq!(task.completion_date, None);
    assert_eq!(task.start_date, None);
    assert_eq!(task.status, Status::ToDo);
    assert_eq!(task.grouping, "");
    assert_eq!(task.scoring, 0);
}

#[test]
fn finishing_sets_completion_and_backfills_start() {
    let today = day(2024, 5, 6);
    assert_eq!(derive_dates(Status::Finished, None, None, today), (Some(today), Some(today)));
    let old = day(2024, 1, 1);
    assert_eq!(
        derive_dates(Status::Finished, None, Some(old), today),
        (Some(today), Some(today))
    );
}

#[test]
fn finishing_twice_keeps_start_and_moves_completion() {
    let started = day(2024, 5, 1);
    let first = day(2024, 5, 6);
    let second = day(2024, 5, 7);
    let once = derive_dates(Status::Finished, Some(started), None, first);
    assert_eq!(once, (Some(started), Some(first)));
    let twice = derive_dates(Status::Finished, once.0, once.1, second);
    assert_eq!(twice, (Some(started), Some(second)));
    let same_day = derive_dates(Status::Finished, once.0, once.1, first);
    assert_eq!(same_day, once);
}

#[test]
fn starting_clears_completion() {
    let today = day(2024, 5, 6);
    let earlier = day(2024, 4, 1);
    assert_eq!(
        derive_dates(Status::InProgress, Some(earlier), Some(earlier), today),
        (Some(today), None)
    );
    assert_eq!(derive_dates(Status::InProgress, None, None, today), (Some(today), None));
    assert_eq!(derive_dates(Status::InProgress, None, Some(earlier), today), (Some(today), None));
}

#[test]
fn other_statuses_leave_the_dates() {
    let today = day(2024, 5, 6);
    let a = day(2024, 4, 1);
    let b = day(2024, 4, 2);
    for status in [Status::ToDo, Status::Canceled, Status::Blocked] {
        assert_eq!(derive_dates(status, Some(a), Some(b), today), (Some(a), Some(b)));
        assert_eq!(derive_dates(status, None, None, today), (None, None));
        assert_eq!(derive_dates(status, None, Some(b), today), (None, Some(b)));
    }
}

#[test]
fn reopening_then_finishing_again_moves_both_dates() {
    let d1 = day(2024, 5, 1);
    let d2 = day(2024, 5, 2);
    let d3 = day(2024, 5, 3);
    let finished = derive_dates(Status::Finished, Some(d1), None, d1);
    let reopened = derive_dates(Status::InProgress, finished.0, finished.1, d2);
    assert_eq!(reopened, (Some(d2), None));
    let again = derive_dates(Status::Finished, reopened.0, reopened.1, d3);
    assert_eq!(again, (Some(d2), Some(d3)));
}

#[test]
fn apply_dates_changes_only_the_dates() {
    let mut task = Task::new(day(2024, 5, 1));
    task.description = "write report".to_string();
    task.status = Status::Finished;
    task.scoring = 9;
    task.apply_dates(day(2024, 5, 6));
    assert_eq!(task.start_date, Some(day(2024, 5, 6)));
    assert_eq!(task.completion_date, Some(day(2024, 5, 6)));
    assert_eq!(task.description, "write report");
    assert_eq!(task.creation_date, day(2024, 5, 1));
    assert_eq!(task.scoring, 9);
    assert_eq!(task.status, Status::Finished);
}

#[test]
fn update_date_uses_the_current_day() {
    let before = current_day();
    let mut task = Task::new(day(2020, 1, 1));
    task.status = Status::InProgress;
    task.completion_date = Some(day(2020, 1, 2));
    task.update_date();
    let after = current_day();
    assert!(task.start_date == Some(before) || task.start_date == Some(after));
    assert_eq!(task.completion_date, None);
}

#[test]
fn update_scoring_recomputes_from_the_categories() {
    let mut task = Task::new(day(2024, 5, 1));
    task.scoring = 200;
    task.update_scoring();
    assert_eq!(task.scoring, 0);
    task.priority = Priority::VeryUrgent;
    task.importance = Importance::VeryImportant;
    task.duration = Duration::VeryShort;
    task.status = Status::InProgress;
    task.update_scoring();
    assert_eq!(task.scoring, 52);
    task.status = Status::Canceled;
    task.update_scoring();
    assert_eq!(task.scoring, 0);
    assert_eq!(task.priority, Priority::VeryUrgent);
}

#[test]
fn lifecycle_in_memory() {
    let created = day(2024, 5, 1);
    let started = day(2024, 5, 2);
    let finished = day(2024, 5, 3);
    let mut task = Task::new(created);
    task.update_scoring();
    task.apply_dates(created);
    assert_eq!((task.start_date, task.completion_date), (None, None));
    task.status = Status::InProgress;
    task.apply_dates(started);
    assert_eq!(task.start_date, Some(started));
    assert_eq!(task.completion_date, None);
    task.status = Status::Finished;
    task.apply_dates(finished);
    assert_eq!(task.completion_date, Some(finished));
    assert_eq!(task.start_date, Some(started));
}
