//! One task for every combination of the four categories, to fill a store
//! for a trial.

use vstd::prelude::*;
use vstd::string::StringExecFns;
use crate::category::{Duration, Importance, Priority, Status};
use crate::date::Date;
use crate::task::{Task, TaskView};

verus! {

/// The number of combinations of the four categories.
pub const SAMPLE_COUNT: usize = 750;

/// The sample task with the given categories, created on the day `today`:
/// a fresh task whose description joins the four labels with hyphens, in
/// the order priority, status, importance, duration.
pub open spec fn sample(
    priority: Priority,
    status: Status,
    importance: Importance,
    duration: Duration,
    today: Date,
) -> TaskView {
    TaskView {
        description: priority.label() + "-"@ + status.label() + "-"@ + importance.label() + "-"@
            + duration.label(),
        priority,
        status,
        importance,
        duration,
        ..TaskView::fresh(today)
    }
}

/// The place of a combination in the list of samples: the priority counts
/// most, then the status, the importance and the duration.
pub open spec fn sample_index(
    priority: Priority,
    status: Status,
    importance: Importance,
    duration: Duration,
) -> int {
    ((priority.spec_ordinal() * 5 + status.spec_ordinal()) * 5 + importance.spec_ordinal()) * 6
        + duration.spec_ordinal()
}

/// Whether every combination whose place lies within the list has its
/// sample there.
pub open spec fn filled(tasks: Seq<Task>, today: Date) -> bool {
    forall|p: Priority, s: Status, i: Importance, d: Duration|
        0 <= sample_index(p, s, i, d) < tasks.len() ==> (#[trigger] tasks[sample_index(
            p,
            s,
            i,
            d,
        )])@ == sample(p, s, i, d, today)
}

/// Makes the sample task with the given categories.
pub fn make_sample(
    priority: Priority,
    status: Status,
    importance: Importance,
    duration: Duration,
    today: Date,
) -> (task: Task)
    ensures
        task@ == sample(priority, status, importance, duration, today),
{
    let description = priority.to_string().concat("-").concat(status.to_string().as_str()).concat(
        "-",
    ).concat(importance.to_string().as_str()).concat("-").concat(duration.to_string().as_str());
    let mut task = Task::new(today);
    task.description = description;
    task.priority = priority;
    task.status = status;
    task.importance = importance;
    task.duration = duration;
    task
}

/// Makes the sample tasks: one for every combination of the categories,
/// each at the place that `sample_index` gives it.
#[verifier::loop_isolation(false)]
pub fn sample_tasks(today: Date) -> (tasks: Vec<Task>)
    ensures
        tasks@.len() == SAMPLE_COUNT,
        forall|p: Priority, s: Status, i: Importance, d: Duration|
            (#[trigger] tasks@[sample_index(p, s, i, d)])@ == sample(p, s, i, d, today),
{
    let priorities = Priority::all();
    let statuses = Status::all();
    let importances = Importance::all();
    let durations = Duration::all();
    let mut tasks: Vec<Task> = Vec::new();
    let mut a: usize = 0;
    while a < 5
        invariant
            a <= 5,
            tasks@.len() == a * 150,
            filled(tasks@, today),
        decreases 5 - a,
    {
        let mut b: usize = 0;
        while b < 5
            invariant
                b <= 5,
                tasks@.len() == (a * 5 + b) * 30,
                filled(tasks@, today),
            decreases 5 - b,
        {
            let mut c: usize = 0;
            while c < 5
                invariant
                    c <= 5,
                    tasks@.len() == ((a * 5 + b) * 5 + c) * 6,
                    filled(tasks@, today),
                decreases 5 - c,
            {
                let mut e: usize = 0;
                while e < 6
                    invariant
                        e <= 6,
                        tasks@.len() == ((a * 5 + b) * 5 + c) * 6 + e,
                        filled(tasks@, today),
                    decreases 6 - e,
                {
                    let ghost before = tasks@;
                    let task = make_sample(
                        priorities[a].0,
                        statuses[b].0,
                        importances[c].0,
                        durations[e].0,
                        today,
                    );
                    tasks.push(task);
                    assert forall|p: Priority, s: Status, i: Importance, d: Duration|
                        sample_index(p, s, i, d) < tasks@.len() implies (
                    #[trigger] tasks@[sample_index(p, s, i, d)])@ == sample(
                        p,
                        s,
                        i,
                        d,
                        today,
                    ) by {
                        p.ordinal_round_trip();
                        s.ordinal_round_trip();
                        i.ordinal_round_trip();
                        d.ordinal_round_trip();
                        if sample_index(p, s, i, d) < before.len() {
                            assert(tasks@[sample_index(p, s, i, d)] == before[sample_index(
                                p,
                                s,
                                i,
                                d,
                            )]);
                        } else {
                            assert(p.spec_ordinal() == a && s.spec_ordinal() == b
                                && i.spec_ordinal() == c && d.spec_ordinal() == e);
                            priorities@[a as int].0.ordinal_round_trip();
                            statuses@[b as int].0.ordinal_round_trip();
                            importances@[c as int].0.ordinal_round_trip();
                            durations@[e as int].0.ordinal_round_trip();
                        }
                    }
                    e += 1;
                }
                c += 1;
            }
            b += 1;
        }
        a += 1;
    }
    proof {
        assert forall|p: Priority, s: Status, i: Importance, d: Duration|
            (#[trigger] tasks@[sample_index(p, s, i, d)])@ == sample(p, s, i, d, today) by {
            p.ordinal_round_trip();
            s.ordinal_round_trip();
            i.ordinal_round_trip();
            d.ordinal_round_trip();
        }
    }
    tasks
}

} // verus!
