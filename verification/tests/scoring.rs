use task_tracker::category::{Duration, Importance, Priority, Status};
use task_tracker::score::{compute_score, MAX_SCORE};

#[test]
fn most_urgent_task_in_progress_scores_the_maximum() {
    let s = compute_score(
        Priority::VeryUrgent,
        Importance::VeryImportant,
        Duration::VeryShort,
        Status::InProgress,
    );
    assert_eq!(s, 52);
    assert_eq!(s, MAX_SCORE);
}

#[test]
fn undefined_task_to_do_scores_zero() {
    let s = compute_score(
        Priority::ToBeDefined,
        Importance::ToBeDefined,
        Duration::ToBeDefined,
        Status::ToDo,
    );
    assert_eq!(s, 0);
}

#[test]
fn canceled_task_scores_zero_whatever_else_it_has() {
    for (p, _) in Priority::all() {
        for (i, _) in Importance::all() {
            for (d, _) in Duration::all() {
                assert_eq!(compute_score(p, i, d, Status::Canceled), 0);
            }
        }
    }
}

#[test]
fn no_score_exceeds_the_maximum() {
    for (p, _) in Priority::all() {
        for (i, _) in Importance::all() {
            for (d, _) in Duration::all() {
                for (s, _) in Status::all() {
                    assert!(compute_score(p, i, d, s) <= MAX_SCORE);
                }
            }
        }
    }
}

#[test]
fn score_is_the_sum_of_the_weights_times_the_multiplier() {
    // (3 + 2 + 4) * 3
    assert_eq!(compute_score(Priority::Urgent, Importance::Normal, Duration::Short, Status::ToDo), 27);
    // (1 + 1 + 1) * 2
    assert_eq!(
        compute_score(Priority::NotUrgent, Importance::NotImportant, Duration::VeryLong, Status::Blocked),
        6
    );
    // (2 + 3 + 2) * 1
    assert_eq!(
        compute_score(Priority::Normal, Importance::Important, Duration::Long, Status::Finished),
        7
    );
    // (4 + 0 + 3) * 4
    assert_eq!(
        compute_score(Priority::VeryUrgent, Importance::ToBeDefined, Duration::Normal, Status::InProgress),
        28
    );
}

#[test]
fn each_weight_counts_once() {
    let base = |p, i, d| compute_score(p, i, d, Status::Finished);
    assert_eq!(base(Priority::NotUrgent, Importance::ToBeDefined, Duration::ToBeDefined), 1);
    assert_eq!(base(Priority::Normal, Importance::ToBeDefined, Duration::ToBeDefined), 2);
    assert_eq!(base(Priority::Urgent, Importance::ToBeDefined, Duration::ToBeDefined), 3);
    assert_eq!(base(Priority::VeryUrgent, Importance::ToBeDefined, Duration::ToBeDefined), 4);
    assert_eq!(base(Priority::ToBeDefined, Importance::NotImportant, Duration::ToBeDefined), 1);
    assert_eq!(base(Priority::ToBeDefined, Importance::Normal, Duration::ToBeDefined), 2);
    assert_eq!(base(Priority::ToBeDefined, Importance::Important, Duration::ToBeDefined), 3);
    assert_eq!(base(Priority::ToBeDefined, Importance::VeryImportant, Duration::ToBeDefined), 4);
    assert_eq!(base(Priority::ToBeDefined, Importance::ToBeDefined, Duration::VeryLong), 1);
    assert_eq!(base(Priority::ToBeDefined, Importance::ToBeDefined, Duration::Long), 2);
    assert_eq!(base(Priority::ToBeDefined, Importance::ToBeDefined, Duration::Normal), 3);
    assert_eq!(base(Priority::ToBeDefined, Importance::ToBeDefined, Duration::Short), 4);
    assert_eq!(base(Priority::ToBeDefined, Importance::ToBeDefined, Duration::VeryShort), 5);
}

#[test]
fn compute_score_gives_the_same_result_each_time() {
    let a = compute_score(Priority::Urgent, Importance::Important, Duration::Short, Status::Blocked);
    let b = compute_score(Priority::Urgent, Importance::Important, Duration::Short, Status::Blocked);
    assert_eq!(a, 20);
    assert_eq!(a, b);
}
