//! The data model: tasks, subtasks, priorities, usage statistics, and the
//! counting model that ties the statistics to the task store.

use vstd::prelude::*;

verus! {

/// The fixed set of priority levels a task can have.
#[derive(Clone, Copy, Debug, PartialEq, Eq, Structural)]
pub enum Priority {
    Alta,
    Media,
    Baja,
}

/// A checklist item owned by a task.
#[derive(Clone, Debug)]
pub struct Subtask {
    pub description: String,
    pub done: bool,
}

/// A top-level to-do item.
#[derive(Clone, Debug)]
pub struct Task {
    pub description: String,
    pub done: bool,
    pub priority: Priority,
    pub tag: String,
    pub subtasks: Vec<Subtask>,
}

/// Cumulative usage counters.
#[derive(Clone, Copy, Debug, PartialEq, Eq, Structural)]
pub struct Statistics {
    pub added_tasks: usize,
    pub done_tasks: usize,
    pub pending_tasks: usize,
    pub removed_tasks: usize,
}

/// Why an operation was refused. A refused operation changes nothing.
#[derive(Clone, Copy, Debug, PartialEq, Eq, Structural)]
pub enum TaskError {
    EmptyInput,
    InvalidId,
    InvalidPriority,
    InvalidTagSelection,
    PersistenceUnavailable,
}

/// The tag a task gets when none is chosen.
pub const UNCATEGORIZED: &'static str = "Sin Categoría";

impl Statistics {
    /// Every task ever added is done, pending or removed.
    pub open spec fn is_balanced(&self) -> bool {
        self.added_tasks == self.done_tasks + self.pending_tasks + self.removed_tasks
    }

    /// All four counters at zero.
    pub open spec fn is_zero(&self) -> bool {
        &&& self.added_tasks == 0
        &&& self.done_tasks == 0
        &&& self.pending_tasks == 0
        &&& self.removed_tasks == 0
    }

    /// Fresh counters, for a store that has never held a task.
    pub fn new() -> (r: Statistics)
        ensures
            r.is_zero(),
            tracks(r, Seq::<Task>::empty()),
    {
        Statistics { added_tasks: 0, done_tasks: 0, pending_tasks: 0, removed_tasks: 0 }
    }
}

impl Default for Statistics {
    fn default() -> (r: Statistics)
        ensures
            r.is_zero(),
    {
        Statistics::new()
    }
}

/// How many tasks of `s` are done.
pub open spec fn count_done(s: Seq<Task>) -> nat
    decreases s.len(),
{
    if s.len() == 0 {
        0
    } else {
        count_done(s.drop_last()) + if s.last().done {
            1nat
        } else {
            0nat
        }
    }
}

/// 1 for a done task, 0 for a pending one.
pub open spec fn done_weight(t: Task) -> nat {
    if t.done {
        1
    } else {
        0
    }
}

/// The counters agree with the store: done and pending count the tasks it
/// holds, and the added tasks are exactly the done, pending and removed ones.
pub open spec fn tracks(stats: Statistics, tasks: Seq<Task>) -> bool {
    &&& stats.done_tasks == count_done(tasks)
    &&& stats.done_tasks + stats.pending_tasks == tasks.len()
    &&& stats.is_balanced()
}

/// Appending a task adds its weight to the count.
pub proof fn lemma_count_done_push(s: Seq<Task>, t: Task)
    ensures
        count_done(s.push(t)) == count_done(s) + done_weight(t),
{
    assert(s.push(t).drop_last() =~= s);
}

/// Replacing one task changes the count by the difference of weights.
pub proof fn lemma_count_done_update(s: Seq<Task>, i: int, t: Task)
    requires
        0 <= i < s.len(),
    ensures
        count_done(s.update(i, t)) + done_weight(s[i]) == count_done(s) + done_weight(t),
    decreases s.len(),
{
    let u = s.update(i, t);
    if i == s.len() - 1 {
        assert(u.drop_last() =~= s.drop_last());
    } else {
        assert(u.drop_last() =~= s.drop_last().update(i, t));
        lemma_count_done_update(s.drop_last(), i, t);
    }
}

/// Removing one task takes its weight off the count.
pub proof fn lemma_count_done_remove(s: Seq<Task>, i: int)
    requires
        0 <= i < s.len(),
    ensures
        count_done(s.remove(i)) + done_weight(s[i]) == count_done(s),
    decreases s.len(),
{
    let u = s.remove(i);
    if i == s.len() - 1 {
        assert(u =~= s.drop_last());
    } else {
        assert(u.drop_last() =~= s.drop_last().remove(i));
        lemma_count_done_remove(s.drop_last(), i);
    }
}

} // verus!
