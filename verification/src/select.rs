//! Applying a filter to tasks held in memory: the tasks that the filter
//! accepts, listed in the order of the filter.

use vstd::prelude::*;
use vstd::multiset::Multiset;
use vstd::seq_lib::{to_multiset_build, to_multiset_insert};
use crate::date::Date;
use crate::filter::{Filter, SortOrder};
use crate::task::{Task, TaskView};

verus! {

/// The tasks of a list as contracts see them.
pub open spec fn views(tasks: Seq<Task>) -> Seq<TaskView> {
    tasks.map_values(|t: Task| t@)
}

impl Filter {
    /// The predicate of the filter on the day `today`.
    pub open spec fn predicate(self, today: Date) -> spec_fn(TaskView) -> bool {
        |t: TaskView| self.accepts(t, today)
    }

    /// The tasks of the list that the filter accepts, in the order of the
    /// list.
    pub open spec fn accepted(self, tasks: Seq<TaskView>, today: Date) -> Seq<TaskView> {
        tasks.filter(self.predicate(today))
    }
}

/// An empty list holds nothing; adding nothing to a collection changes
/// nothing.
proof fn nothing_added<A>(held: Multiset<A>, none: Seq<A>)
    requires
        none.len() == 0,
    ensures
        held.add(none.to_multiset()) == held,
        none.to_multiset().add(held) == held,
{
    broadcast use vstd::multiset::group_multiset_axioms;

    vstd::seq_lib::to_multiset_len(none);
    vstd::multiset::lemma_multiset_empty_len(none.to_multiset());
}

impl SortOrder {
    /// Finds the first place of a sorted list at which the task may stand:
    /// before every task that it may precede.
    fn place(&self, listed: &Vec<Task>, task: &Task) -> (at: usize)
        requires
            self.sorted(views(listed@)),
        ensures
            at <= listed@.len(),
            self.sorted(views(listed@).insert(at as int, task@)),
    {
        let mut at: usize = 0;
        while at < listed.len() && !self.precedes(task, &listed[at])
            invariant
                at <= listed@.len(),
                forall|k: int| 0 <= k < at ==> !self.in_order(task@, #[trigger] listed@[k]@),
            decreases listed@.len() - at,
        {
            at += 1;
        }
        proof {
            let before = views(listed@);
            let after = before.insert(at as int, task@);
            assert forall|i: int, j: int| 0 <= i < j < after.len() implies self.in_order(
                #[trigger] after[i],
                #[trigger] after[j],
            ) by {
                if i == at && j - 1 > at {
                    assert(self.in_order(before[at as int], before[j - 1]));
                }
            }
        }
        at
    }
}

impl Filter {
    /// Lists the tasks that the filter accepts on the day `today`, in the
    /// order of the filter. The list holds each accepted task as often as
    /// the given tasks do, and no other task.
    pub fn select(&self, tasks: Vec<Task>, today: Date) -> (listed: Vec<Task>)
        ensures
            views(listed@).to_multiset() == self.accepted(views(tasks@), today).to_multiset(),
            self.sort_order().sorted(views(listed@)),
            forall|i: int| 0 <= i < listed@.len() ==> self.accepts((#[trigger] listed@[i])@, today),
    {
        let order = self.order();
        let mut rest = tasks;
        let mut listed: Vec<Task> = Vec::new();
        proof {
            nothing_added(self.accepted(views(tasks@), today).to_multiset(), views(listed@));
        }
        while rest.len() > 0
            invariant
                order == self.sort_order(),
                order.sorted(views(listed@)),
                forall|i: int|
                    0 <= i < listed@.len() ==> self.accepts((#[trigger] listed@[i])@, today),
                views(listed@).to_multiset().add(
                    self.accepted(views(rest@), today).to_multiset(),
                ) == self.accepted(views(tasks@), today).to_multiset(),
            decreases rest@.len(),
        {
            let ghost before = rest@;
            let ghost had = views(listed@);
            let task = rest.pop().unwrap();
            proof {
                assert(views(before) =~= views(rest@).push(task@));
                views(rest@).lemma_filter_push(task@, self.predicate(today));
                to_multiset_build(self.accepted(views(rest@), today), task@);
            }
            if self.matches(&task, today) {
                let at = order.place(&listed, &task);
                listed.insert(at, task);
                proof {
                    assert(views(listed@) =~= had.insert(at as int, task@));
                    to_multiset_insert(had, at as int, task@);
                    assert(had.to_multiset().insert(task@).add(
                        self.accepted(views(rest@), today).to_multiset(),
                    ) =~= had.to_multiset().add(
                        self.accepted(views(rest@), today).to_multiset().insert(task@),
                    ));
                }
            }
        }
        proof {
            assert(self.accepted(views(rest@), today) =~= Seq::empty()) by {
                views(rest@).lemma_filter_len(self.predicate(today));
            }
            nothing_added(views(listed@).to_multiset(), self.accepted(views(rest@), today));
        }
        listed
    }
}

/// Whatever the tasks, the list of the daily work holds no finished and no
/// canceled task.
pub proof fn daily_work_lists_no_closed_task(tasks: Seq<TaskView>, today: Date, i: int)
    requires
        0 <= i < Filter::DailyWork.accepted(tasks, today).len(),
    ensures
        Filter::DailyWork.accepted(tasks, today)[i].status != crate::category::Status::Finished,
        Filter::DailyWork.accepted(tasks, today)[i].status != crate::category::Status::Canceled,
{
    tasks.lemma_filter_pred(Filter::DailyWork.predicate(today), i);
}

/// Whatever the tasks, the list of the work completed holds only tasks
/// whose completion date is the current day.
pub proof fn work_completed_lists_only_today(tasks: Seq<TaskView>, today: Date, i: int)
    requires
        0 <= i < Filter::WorkCompleted.accepted(tasks, today).len(),
    ensures
        Filter::WorkCompleted.accepted(tasks, today)[i].completion_date == Some(today),
        Filter::WorkCompleted.accepted(tasks, today)[i].status
            == crate::category::Status::Finished,
{
    tasks.lemma_filter_pred(Filter::WorkCompleted.predicate(today), i);
}

} // verus!
