use task_tracker::category::{Duration, Importance, Priority, Status};
use task_tracker::date::Date;
use task_tracker::error::TaskError;
use task_tracker::filter::Filter;
use task_tracker::forms::{
    CreateTaskForm, EditTaskForm, FilterParam, FocusParam, StatusParam, ToTask,
};

fn day(year: i32, month: u32, day: u32) -> Date {
    Date { year, month, day }
}

fn create_form() -> CreateTaskForm {
    CreateTaskForm {
        description: "buy milk".to_string(),
        priority: Priority::Normal,
        importance: Importance::Important,
        duration: Duration::VeryShort,
        status: Status::Blocked,
        grouping: "errands".to_string(),
    }
}

fn edit_form() -> EditTaskForm {
    EditTaskForm {
        description: "buy milk".to_string(),
        priority: Priority::Normal,
        importance: Importance::Important,
        duration: Duration::VeryShort,
        status: Status::Finished,
        grouping: "errands".to_string(),
        creation_date: day(2024, 5, 1),
        completion_date: "2024-05-06".to_string(),
        start_date: "".to_string(),
        scoring: 10,
    }
}

#[test]
fn create_form_gives_a_fresh_task_with_its_fields() {
    let task = create_form().task_on(day(2024, 5, 6));
    assert_eq!(task.id, 0);
    assert_eq!(task.description, "buy milk");
    assert_eq!(task.priority, Priority::Normal);
    assert_eq!(task.importance, Importance::Important);
    assert_eq!(task.duration, Duration::VeryShort);
    assert_eq!(task.status, Status::Blocked);
    assert_eq!(task.grouping, "errands");
    assert_eq!(task.creation_date, day(2024, 5, 6));
    assert_eq!(task.start_date, None);
    assert_eq!(task.completion_date, None);
    assert_eq!(task.scoring, 0);
}

#[test]
fn create_form_to_task_is_created_on_a_calendar_day() {
    let task = create_form().to_task().unwrap();
    assert_eq!(task.description, "buy milk");
    assert_eq!(task.status, Status::Blocked);
    let created = task.creation_date;
    assert!(Date::new(created.year, created.month, created.day).is_some());
    assert_eq!(task.scoring, 0);
}

#[test]
fn edit_form_reads_its_dates() {
    let task = edit_form().to_task().unwrap();
    assert_eq!(task.id, 0);
    assert_eq!(task.description, "buy milk");
    assert_eq!(task.status, Status::Finished);
    assert_eq!(task.creation_date, day(2024, 5, 1));
    assert_eq!(task.completion_date, Some(day(2024, 5, 6)));
    assert_eq!(task.start_date, None);
    assert_eq!(task.scoring, 10);
    assert_eq!(task.grouping, "errands");
}

#[test]
fn edit_form_with_text_that_is_no_date_is_invalid() {
    let mut form = edit_form();
    form.start_date = "tomorrow".to_string();
    assert_eq!(form.to_task().err(), Some(TaskError::ValidationError));
    let mut form = edit_form();
    form.completion_date = "2024-02-30".to_string();
    assert_eq!(form.to_task().err(), Some(TaskError::ValidationError));
    let mut form = edit_form();
    form.completion_date = "  ".to_string();
    form.start_date = "2024-05-02".to_string();
    let task = form.to_task().unwrap();
    assert_eq!(task.completion_date, None);
    assert_eq!(task.start_date, Some(day(2024, 5, 2)));
}

#[test]
fn edit_form_task_with_takes_the_dates_as_given() {
    let task = edit_form().task_with(None, Some(day(2024, 5, 3)));
    assert_eq!(task.completion_date, None);
    assert_eq!(task.start_date, Some(day(2024, 5, 3)));
    assert_eq!(task.priority, Priority::Normal);
    assert_eq!(task.importance, Importance::Important);
    assert_eq!(task.duration, Duration::VeryShort);
}

#[test]
fn parameters_carry_their_value() {
    assert_eq!(StatusParam { status: Status::Canceled }.status, Status::Canceled);
    assert_eq!(FilterParam { filter: Filter::Quick }.filter, Filter::Quick);
    assert_eq!(FocusParam { id: 7 }.id, 7);
}
