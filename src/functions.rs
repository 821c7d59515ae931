//! The task store: adding, completing, removing and editing tasks, with the
//! statistics updated in the same step.

use vstd::prelude::*;
use crate::data::{
    Priority, Statistics, Subtask, Task, TaskError, count_done, lemma_count_done_push,
    lemma_count_done_remove, lemma_count_done_update, tracks,
};
use crate::tags::{resolve_tag, resolves};
use crate::text::{blank, is_blank};

verus! {

/// A 1-based position that names one of `len` items.
pub open spec fn valid_id(id: int, len: int) -> bool {
    1 <= id <= len
}

/// Turns a 1-based position into an index, if it names one of `len` items.
pub fn task_index(len: usize, id: usize) -> (r: Option<usize>)
    ensures
        valid_id(id as int, len as int) ==> r == Some((id - 1) as usize),
        !valid_id(id as int, len as int) ==> r is None,
{
    if id > 0 && id <= len {
        Some(id - 1)
    } else {
        None
    }
}

/// `after` is `before` marked done, with every subtask marked done and
/// nothing else changed.
pub open spec fn completed(before: Task, after: Task) -> bool {
    &&& after.done
    &&& after.description@ == before.description@
    &&& after.priority == before.priority
    &&& after.tag@ == before.tag@
    &&& after.subtasks@.len() == before.subtasks@.len()
    &&& forall|k: int|
        0 <= k < after.subtasks@.len() ==> (#[trigger] after.subtasks@[k]).done
            && after.subtasks@[k].description@ == before.subtasks@[k].description@
}

/// The counters after completing `task`: a pending task moves from
/// pending to done; completing a done task changes nothing.
pub open spec fn stats_after_complete(stats: Statistics, task: Task) -> Statistics {
    if task.done {
        stats
    } else {
        Statistics {
            done_tasks: (stats.done_tasks + 1) as usize,
            pending_tasks: (stats.pending_tasks - 1) as usize,
            ..stats
        }
    }
}

/// Completing a task a second time changes no counter: the first
/// completion leaves the task done, so the second one finds nothing to move.
pub proof fn lemma_complete_twice(stats: Statistics, before: Task, after: Task)
    requires
        completed(before, after),
    ensures
        stats_after_complete(stats_after_complete(stats, before), after)
            == stats_after_complete(stats, before),
{
}

/// Adds a pending task with no subtasks at the end of the store. A blank
/// description is refused.
pub fn add_task(
    tasks: &mut Vec<Task>,
    description: &str,
    priority: Priority,
    tag: String,
    stats: &mut Statistics,
) -> (r: Result<(), TaskError>)
    requires
        old(stats).added_tasks < usize::MAX,
        old(stats).pending_tasks < usize::MAX,
    ensures
        is_blank(description@) ==> r == Err::<(), TaskError>(TaskError::EmptyInput)
            && final(tasks)@ == old(tasks)@ && *final(stats) == *old(stats),
        !is_blank(description@) ==> {
            &&& r is Ok
            &&& final(tasks)@.len() == old(tasks)@.len() + 1
            &&& final(tasks)@.drop_last() == old(tasks)@
            &&& final(tasks)@.last().description@ == description@
            &&& !final(tasks)@.last().done
            &&& final(tasks)@.last().priority == priority
            &&& final(tasks)@.last().tag == tag
            &&& final(tasks)@.last().subtasks@.len() == 0
            &&& *final(stats) == (Statistics {
                added_tasks: (old(stats).added_tasks + 1) as usize,
                pending_tasks: (old(stats).pending_tasks + 1) as usize,
                ..*old(stats)
            })
        },
        old(stats).is_balanced() ==> final(stats).is_balanced(),
        tracks(*old(stats), old(tasks)@) ==> tracks(*final(stats), final(tasks)@),
{
    if blank(description) {
        return Err(TaskError::EmptyInput);
    }
    let task = Task {
        description: description.to_string(),
        done: false,
        priority,
        tag,
        subtasks: Vec::new(),
    };
    proof {
        lemma_count_done_push(old(tasks)@, task);
    }
    tasks.push(task);
    proof {
        assert(final(tasks)@.drop_last() =~= old(tasks)@);
    }
    stats.added_tasks = stats.added_tasks + 1;
    stats.pending_tasks = stats.pending_tasks + 1;
    Ok(())
}

/// Marks the task at 1-based position `id` done, and every one of its
/// subtasks with it. Only a task that was pending moves a count.
pub fn complete_task(tasks: &mut Vec<Task>, id: usize, stats: &mut Statistics) -> (r: Result<
    (),
    TaskError,
>)
    requires
        valid_id(id as int, old(tasks)@.len() as int) && !old(tasks)@[id - 1].done ==> old(
            stats,
        ).pending_tasks > 0 && old(stats).done_tasks < usize::MAX,
    ensures
        r is Ok <==> valid_id(id as int, old(tasks)@.len() as int),
        r is Err ==> r == Err::<(), TaskError>(TaskError::InvalidId) && final(tasks)@ == old(
            tasks,
        )@ && *final(stats) == *old(stats),
        r is Ok ==> {
            let i = id - 1;
            &&& final(tasks)@.len() == old(tasks)@.len()
            &&& forall|j: int|
                0 <= j < old(tasks)@.len() && j != i ==> #[trigger] final(tasks)@[j] == old(
                    tasks,
                )@[j]
            &&& completed(old(tasks)@[i], final(tasks)@[i])
            &&& *final(stats) == stats_after_complete(*old(stats), old(tasks)@[i])
        },
        old(stats).is_balanced() ==> final(stats).is_balanced(),
        tracks(*old(stats), old(tasks)@) ==> tracks(*final(stats), final(tasks)@),
{
    let i = match task_index(tasks.len(), id) {
        Some(i) => i,
        None => {
            return Err(TaskError::InvalidId);
        },
    };
    let old_task = &tasks[i];
    let n = old_task.subtasks.len();
    let mut subtasks: Vec<Subtask> = Vec::new();
    let mut k: usize = 0;
    while k < n
        invariant
            n == old_task.subtasks@.len(),
            k <= n,
            subtasks@.len() == k,
            forall|j: int|
                0 <= j < k ==> (#[trigger] subtasks@[j]).done && subtasks@[j].description@
                    == old_task.subtasks@[j].description@,
        decreases n - k,
    {
        subtasks.push(
            Subtask { description: old_task.subtasks[k].description.clone(), done: true },
        );
        k = k + 1;
    }
    let was_done = old_task.done;
    let task = Task {
        description: old_task.description.clone(),
        done: true,
        priority: old_task.priority,
        tag: old_task.tag.clone(),
        subtasks,
    };
    proof {
        lemma_count_done_update(old(tasks)@, i as int, task);
    }
    tasks[i] = task;
    if !was_done {
        stats.done_tasks = stats.done_tasks + 1;
        stats.pending_tasks = stats.pending_tasks - 1;
    }
    Ok(())
}

/// Removes the task at 1-based position `id`; the tasks after it move down
/// one place. Returns the removed task.
pub fn remove_task(tasks: &mut Vec<Task>, id: usize, stats: &mut Statistics) -> (r: Result<
    Task,
    TaskError,
>)
    requires
        valid_id(id as int, old(tasks)@.len() as int) ==> {
            &&& old(stats).removed_tasks < usize::MAX
            &&& old(tasks)@[id - 1].done ==> old(stats).done_tasks > 0
            &&& !old(tasks)@[id - 1].done ==> old(stats).pending_tasks > 0
        },
    ensures
        r is Ok <==> valid_id(id as int, old(tasks)@.len() as int),
        r is Err ==> r == Err::<Task, TaskError>(TaskError::InvalidId) && final(tasks)@ == old(
            tasks,
        )@ && *final(stats) == *old(stats),
        r matches Ok(t) ==> {
            let i = id - 1;
            &&& t == old(tasks)@[i]
            &&& final(tasks)@ == old(tasks)@.remove(i)
            &&& t.done ==> *final(stats) == (Statistics {
                done_tasks: (old(stats).done_tasks - 1) as usize,
                removed_tasks: (old(stats).removed_tasks + 1) as usize,
                ..*old(stats)
            })
            &&& !t.done ==> *final(stats) == (Statistics {
                pending_tasks: (old(stats).pending_tasks - 1) as usize,
                removed_tasks: (old(stats).removed_tasks + 1) as usize,
                ..*old(stats)
            })
        },
        old(stats).is_balanced() ==> final(stats).is_balanced(),
        tracks(*old(stats), old(tasks)@) ==> tracks(*final(stats), final(tasks)@),
{
    let i = match task_index(tasks.len(), id) {
        Some(i) => i,
        None => {
            return Err(TaskError::InvalidId);
        },
    };
    proof {
        lemma_count_done_remove(old(tasks)@, i as int);
    }
    let removed = tasks.remove(i);
    stats.removed_tasks = stats.removed_tasks + 1;
    if removed.done {
        stats.done_tasks = stats.done_tasks - 1;
    } else {
        stats.pending_tasks = stats.pending_tasks - 1;
    }
    Ok(removed)
}

/// One change made to a task while editing it.
pub enum TaskEdit {
    /// Replace the description.
    Description(String),
    /// Replace the priority.
    Priority(Priority),
    /// Replace the tag by the one a tag choice resolves to.
    Tag(String),
    /// Append a pending subtask with this description.
    AddSubtask(String),
    /// Mark the subtask at this 1-based position done.
    CompleteSubtask(usize),
}

/// What applying `edit` to the task `before` gives: the task `after`, the
/// registry going from `tags_before` to `tags_after`, and the outcome `r`.
/// A refused edit changes nothing. No edit touches `done`.
pub open spec fn edit_outcome(
    before: Task,
    after: Task,
    tags_before: Seq<String>,
    tags_after: Seq<String>,
    edit: TaskEdit,
    r: Result<(), TaskError>,
) -> bool {
    match edit {
        TaskEdit::Description(d) => {
            &&& tags_after == tags_before
            &&& if is_blank(d@) {
                r == Err::<(), TaskError>(TaskError::EmptyInput) && after == before
            } else {
                r is Ok && after == Task { description: after.description, ..before }
                    && after.description@ == d@
            }
        },
        TaskEdit::Priority(p) => {
            &&& tags_after == tags_before
            &&& r is Ok
            &&& after == Task { priority: p, ..before }
        },
        TaskEdit::Tag(input) => match r {
            Ok(_) => resolves(input@, tags_before, tags_after, Ok(after.tag)) && after == Task {
                tag: after.tag,
                ..before
            },
            Err(e) => resolves(input@, tags_before, tags_after, Err(e)) && after == before,
        },
        TaskEdit::AddSubtask(d) => {
            &&& tags_after == tags_before
            &&& if is_blank(d@) {
                r == Err::<(), TaskError>(TaskError::EmptyInput) && after == before
            } else {
                &&& r is Ok
                &&& after == Task { subtasks: after.subtasks, ..before }
                &&& after.subtasks@.drop_last() == before.subtasks@
                &&& after.subtasks@.len() == before.subtasks@.len() + 1
                &&& after.subtasks@.last().description@ == d@
                &&& !after.subtasks@.last().done
            }
        },
        TaskEdit::CompleteSubtask(k) => {
            &&& tags_after == tags_before
            &&& if valid_id(k as int, before.subtasks@.len() as int) {
                &&& r is Ok
                &&& after == Task { subtasks: after.subtasks, ..before }
                &&& after.subtasks@ == before.subtasks@.update(
                    k - 1,
                    Subtask { done: true, ..before.subtasks@[k - 1] },
                )
            } else {
                r == Err::<(), TaskError>(TaskError::InvalidId) && after == before
            }
        },
    }
}

/// Applies one edit to the task at 1-based position `task_id`. Statistics
/// are not involved: no edit changes whether a task is done.
pub fn edit_task(
    tasks: &mut Vec<Task>,
    task_id: usize,
    all_tags: &mut Vec<String>,
    edit: TaskEdit,
) -> (r: Result<(), TaskError>)
    ensures
        !valid_id(task_id as int, old(tasks)@.len() as int) ==> r == Err::<(), TaskError>(
            TaskError::InvalidId,
        ) && final(tasks)@ == old(tasks)@ && final(all_tags)@ == old(all_tags)@,
        valid_id(task_id as int, old(tasks)@.len() as int) ==> {
            let i = task_id - 1;
            &&& final(tasks)@ == old(tasks)@.update(i, final(tasks)@[i])
            &&& edit_outcome(
                old(tasks)@[i],
                final(tasks)@[i],
                old(all_tags)@,
                final(all_tags)@,
                edit,
                r,
            )
        },
        count_done(final(tasks)@) == count_done(old(tasks)@),
        final(tasks)@.len() == old(tasks)@.len(),
{
    let i = match task_index(tasks.len(), task_id) {
        Some(i) => i,
        None => {
            return Err(TaskError::InvalidId);
        },
    };
    let task = &mut tasks[i];
    let r = match edit {
        TaskEdit::Description(d) => {
            if blank(d.as_str()) {
                Err(TaskError::EmptyInput)
            } else {
                task.description = d;
                Ok(())
            }
        },
        TaskEdit::Priority(p) => {
            task.priority = p;
            Ok(())
        },
        TaskEdit::Tag(input) => match resolve_tag(input.as_str(), all_tags) {
            Ok(t) => {
                task.tag = t;
                Ok(())
            },
            Err(e) => Err(e),
        },
        TaskEdit::AddSubtask(d) => {
            if blank(d.as_str()) {
                Err(TaskError::EmptyInput)
            } else {
                task.subtasks.push(Subtask { description: d, done: false });
                proof {
                    assert(task.subtasks@.drop_last() =~= old(tasks)@[i as int].subtasks@);
                }
                Ok(())
            }
        },
        TaskEdit::CompleteSubtask(k) => {
            match task_index(task.subtasks.len(), k) {
                Some(j) => {
                    task.subtasks[j].done = true;
                    Ok(())
                },
                None => Err(TaskError::InvalidId),
            }
        },
    };
    proof {
        assert(final(tasks)@ =~= old(tasks)@.update(i as int, final(tasks)@[i as int]));
        lemma_count_done_update(old(tasks)@, i as int, final(tasks)@[i as int]);
    }
    r
}

} // verus!
