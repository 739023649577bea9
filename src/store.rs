use vstd::prelude::*;
use crate::task::{Task, TaskView, strings_view};
use crate::filter::{ListFilter, StatusFilter, shows};

verus! {

/// The views of a list of tasks.
pub open spec fn tasks_view(v: Seq<Task>) -> Seq<TaskView> {
    v.map_values(|t: Task| t@)
}

/// An ordered list of tasks. A task's position is its identity: removing one
/// moves every later task down by one.
pub struct TaskStore {
    tasks: Vec<Task>,
}

impl View for TaskStore {
    type V = Seq<TaskView>;

    closed spec fn view(&self) -> Seq<TaskView> {
        tasks_view(self.tasks@)
    }
}

/// Why an operation on one task was refused.
#[derive(Debug, PartialEq, Eq)]
pub enum StoreError {
    /// The index names no task of the store.
    OutOfRange,
}

/// A task with its `done` flag set as given.
pub open spec fn with_done(t: TaskView, done: bool) -> TaskView {
    TaskView { description: t.description, done, tags: t.tags }
}

/// A task with its description replaced.
pub open spec fn with_description(t: TaskView, description: Seq<char>) -> TaskView {
    TaskView { description, done: t.done, tags: t.tags }
}

/// The tasks with the `done` flag of the task at `index` flipped.
pub open spec fn toggled(ts: Seq<TaskView>, index: int) -> Seq<TaskView> {
    ts.update(index, with_done(ts[index], !ts[index].done))
}

/// Flipping the same task twice gives back the tasks as they were.
pub proof fn law_toggle_twice(ts: Seq<TaskView>, index: int)
    requires
        0 <= index < ts.len(),
    ensures
        toggled(toggled(ts, index), index) == ts,
{
    assert(toggled(toggled(ts, index), index) =~= ts);
}

/// One change to the task at a given index.
pub enum TaskAction {
    Done,
    Delete,
    Edit(String),
    Toggle,
}

/// What an applied action reports.
pub enum Outcome {
    /// The task is now done.
    MarkedDone,
    /// The task was removed; here it is.
    Deleted(Task),
    /// The description changed from `before` to `after`.
    Edited { before: String, after: String },
    /// The task's `done` flag now has this value.
    Toggled(bool),
}

/// The tasks after `action` on the task at `index`, a valid position.
pub open spec fn acted(ts: Seq<TaskView>, index: int, action: TaskAction) -> Seq<TaskView> {
    match action {
        TaskAction::Done => ts.update(index, with_done(ts[index], true)),
        TaskAction::Delete => ts.remove(index),
        TaskAction::Edit(d) => ts.update(index, with_description(ts[index], d@)),
        TaskAction::Toggle => toggled(ts, index),
    }
}

/// Whether `o` is what `action` on the task at `index` of `ts` reports.
pub open spec fn reports(ts: Seq<TaskView>, index: int, action: TaskAction, o: Outcome) -> bool {
    match action {
        TaskAction::Done => o is MarkedDone,
        TaskAction::Delete => o is Deleted && o->Deleted_0@ == ts[index],
        TaskAction::Edit(d) => o is Edited && o->before@ == ts[index].description && o->after@ == d@,
        TaskAction::Toggle => o == Outcome::Toggled(!ts[index].done),
    }
}

/// The indices, in ascending order, of the tasks that a listing with this
/// status filter and optional tag shows.
pub open spec fn listed(ts: Seq<TaskView>, status: StatusFilter, tag: Option<Seq<char>>) -> Seq<int>
    decreases ts.len(),
{
    if ts.len() == 0 {
        Seq::empty()
    } else {
        let before = listed(ts.drop_last(), status, tag);
        if shows(status, tag, ts.last()) {
            before.push(ts.len() - 1)
        } else {
            before
        }
    }
}

/// The indices as integers.
pub open spec fn indices_view(v: Seq<usize>) -> Seq<int> {
    v.map_values(|k: usize| k as int)
}

/// A listing shows exactly the tasks that pass both the status filter and the
/// tag filter, each once, in ascending order of index.
pub proof fn law_listing_is_conjunction(ts: Seq<TaskView>, status: StatusFilter, tag: Option<Seq<char>>)
    ensures
        forall|k: int| #[trigger] listed(ts, status, tag).contains(k) <==> 0 <= k < ts.len() && shows(status, tag, ts[k]),
        forall|a: int, b: int|
            0 <= a < b < listed(ts, status, tag).len() ==> #[trigger] listed(ts, status, tag)[a] < #[trigger] listed(ts, status, tag)[b],
    decreases ts.len(),
{
    if ts.len() > 0 {
        let init = ts.drop_last();
        law_listing_is_conjunction(init, status, tag);
        let before = listed(init, status, tag);
        assert forall|k: int| #[trigger] listed(ts, status, tag).contains(k) <==> 0 <= k < ts.len() && shows(status, tag, ts[k]) by {
            if shows(status, tag, ts.last()) {
                if before.push(ts.len() - 1).contains(k) && k != ts.len() - 1 {
                    let j = choose|j: int| 0 <= j < before.push(ts.len() - 1).len() && #[trigger] before.push(ts.len() - 1)[j] == k;
                    assert(before[j] == k);
                    assert(before.contains(k));
                }
                if before.contains(k) {
                    let j = choose|j: int| 0 <= j < before.len() && #[trigger] before[j] == k;
                    assert(before.push(ts.len() - 1)[j] == k);
                }
                if k == ts.len() - 1 {
                    assert(before.push(ts.len() - 1)[before.len() as int] == k);
                }
            }
            if 0 <= k < init.len() {
                assert(init[k] == ts[k]);
            }
        }
        assert forall|a: int, b: int|
            0 <= a < b < listed(ts, status, tag).len() implies #[trigger] listed(ts, status, tag)[a] < #[trigger] listed(ts, status, tag)[b] by {
            if shows(status, tag, ts.last()) && b == before.len() {
                assert(before.contains(before[a]));
            }
        }
    }
}

impl TaskStore {
    /// A store with no task.
    pub fn new() -> (r: TaskStore)
        ensures
            r@ == Seq::<TaskView>::empty(),
    {
        let r = TaskStore { tasks: Vec::new() };
        assert(r@ =~= Seq::<TaskView>::empty());
        r
    }

    /// A store that holds the given tasks in their order.
    pub fn from_tasks(tasks: Vec<Task>) -> (r: TaskStore)
        ensures
            r@ == tasks_view(tasks@),
    {
        TaskStore { tasks }
    }

    /// The tasks, in their order.
    pub fn tasks(&self) -> (r: &Vec<Task>)
        ensures
            tasks_view(r@) == self@,
    {
        &self.tasks
    }

    /// The tasks, in their order, taken out of the store.
    pub fn into_tasks(self) -> (r: Vec<Task>)
        ensures
            tasks_view(r@) == self@,
    {
        self.tasks
    }

    /// The number of tasks.
    pub fn len(&self) -> (r: usize)
        ensures
            r == self@.len(),
    {
        self.tasks.len()
    }

    /// Whether the store holds no task.
    pub fn is_empty(&self) -> (r: bool)
        ensures
            r == (self@.len() == 0),
    {
        self.tasks.len() == 0
    }

    /// The task at `index`, if there is one.
    pub fn get(&self, index: usize) -> (r: Option<&Task>)
        ensures
            index < self@.len() ==> r is Some && r.unwrap()@ == self@[index as int],
            index >= self@.len() ==> r is None,
    {
        if index < self.tasks.len() {
            Some(&self.tasks[index])
        } else {
            None
        }
    }

    /// Appends a new task that is not done; returns its index.
    pub fn add(&mut self, description: String, tags: Vec<String>) -> (r: usize)
        ensures
            r == old(self)@.len(),
            final(self)@ == old(self)@.push(
                TaskView { description: description@, done: false, tags: strings_view(tags@) },
            ),
            final(self)@.len() == old(self)@.len() + 1,
            forall|i: int| 0 <= i < old(self)@.len() ==> #[trigger] final(self)@[i] == old(self)@[i],
            !final(self)@[r as int].done,
            final(self)@[r as int].tags == strings_view(tags@),
    {
        let r = self.tasks.len();
        let t = Task::new(description, tags);
        self.tasks.push(t);
        proof {
            assert(self@ =~= old(self)@.push(t@));
        }
        r
    }

    /// Marks the task at `index` as done.
    pub fn set_done(&mut self, index: usize) -> (r: Result<(), StoreError>)
        ensures
            index < old(self)@.len() ==> r is Ok && final(self)@ == old(self)@.update(
                index as int,
                with_done(old(self)@[index as int], true),
            ),
            index < old(self)@.len() && old(self)@[index as int].done ==> final(self)@ == old(self)@,
            index >= old(self)@.len() ==> r == Err::<(), StoreError>(StoreError::OutOfRange)
                && final(self)@ == old(self)@,
    {
        if index >= self.tasks.len() {
            return Err(StoreError::OutOfRange);
        }
        self.tasks[index].done = true;
        proof {
            assert(self@ =~= old(self)@.update(index as int, with_done(old(self)@[index as int], true)));
        }
        Ok(())
    }

    /// Flips the `done` flag of the task at `index`; returns the new value.
    pub fn toggle(&mut self, index: usize) -> (r: Result<bool, StoreError>)
        ensures
            index < old(self)@.len() ==> r == Ok::<bool, StoreError>(!old(self)@[index as int].done)
                && final(self)@ == toggled(old(self)@, index as int),
            index >= old(self)@.len() ==> r == Err::<bool, StoreError>(StoreError::OutOfRange)
                && final(self)@ == old(self)@,
    {
        if index >= self.tasks.len() {
            return Err(StoreError::OutOfRange);
        }
        let done = !self.tasks[index].done;
        self.tasks[index].done = done;
        proof {
            assert(self@ =~= toggled(old(self)@, index as int));
        }
        Ok(done)
    }

    /// Removes the task at `index`, moving every later task down by one;
    /// returns the removed task.
    pub fn delete(&mut self, index: usize) -> (r: Result<Task, StoreError>)
        ensures
            index < old(self)@.len() ==> r is Ok && r.unwrap()@ == old(self)@[index as int]
                && final(self)@ == old(self)@.remove(index as int),
            index < old(self)@.len() ==> final(self)@.len() == old(self)@.len() - 1
                && (forall|i: int| 0 <= i < index ==> #[trigger] final(self)@[i] == old(self)@[i])
                && (forall|i: int| index <= i < final(self)@.len() ==> #[trigger] final(self)@[i] == old(self)@[i + 1]),
            index >= old(self)@.len() ==> r is Err && r->Err_0 == StoreError::OutOfRange
                && final(self)@ == old(self)@,
    {
        if index >= self.tasks.len() {
            return Err(StoreError::OutOfRange);
        }
        let removed = self.tasks.remove(index);
        proof {
            assert(self@ =~= old(self)@.remove(index as int));
        }
        Ok(removed)
    }

    /// Replaces the description of the task at `index`, keeping its flag and
    /// tags; returns the description it had before.
    pub fn edit(&mut self, index: usize, description: String) -> (r: Result<String, StoreError>)
        ensures
            index < old(self)@.len() ==> r is Ok && r.unwrap()@ == old(self)@[index as int].description
                && final(self)@ == old(self)@.update(
                index as int,
                with_description(old(self)@[index as int], description@),
            ),
            index >= old(self)@.len() ==> r is Err && r->Err_0 == StoreError::OutOfRange
                && final(self)@ == old(self)@,
    {
        if index >= self.tasks.len() {
            return Err(StoreError::OutOfRange);
        }
        let mut before = description;
        std::mem::swap(&mut self.tasks[index].description, &mut before);
        proof {
            assert(self@ =~= old(self)@.update(
                index as int,
                with_description(old(self)@[index as int], description@),
            ));
        }
        Ok(before)
    }

    /// Applies `action` to the task at `index`. Nothing changes when the index
    /// names no task.
    pub fn apply(&mut self, index: usize, action: TaskAction) -> (r: Result<Outcome, StoreError>)
        ensures
            index < old(self)@.len() ==> r is Ok && reports(old(self)@, index as int, action, r->Ok_0)
                && final(self)@ == acted(old(self)@, index as int, action),
            index >= old(self)@.len() ==> r is Err && r->Err_0 == StoreError::OutOfRange
                && final(self)@ == old(self)@,
    {
        if index >= self.tasks.len() {
            return Err(StoreError::OutOfRange);
        }
        match action {
            TaskAction::Done => {
                let _ = self.set_done(index);
                Ok(Outcome::MarkedDone)
            },
            TaskAction::Delete => match self.delete(index) {
                Ok(t) => Ok(Outcome::Deleted(t)),
                Err(e) => Err(e),
            },
            TaskAction::Edit(d) => {
                let after = d.clone();
                match self.edit(index, d) {
                    Ok(before) => Ok(Outcome::Edited { before, after }),
                    Err(e) => Err(e),
                }
            },
            TaskAction::Toggle => match self.toggle(index) {
                Ok(done) => Ok(Outcome::Toggled(done)),
                Err(e) => Err(e),
            },
        }
    }

    /// The indices, in ascending order, of the tasks that the filter shows.
    pub fn list(&self, filter: &ListFilter) -> (r: Vec<usize>)
        ensures
            indices_view(r@) == listed(self@, filter.status, filter.tag_view()),
    {
        let mut r: Vec<usize> = Vec::new();
        let mut i: usize = 0;
        while i < self.tasks.len()
            invariant
                i <= self.tasks.len(),
                indices_view(r@) == listed(self@.take(i as int), filter.status, filter.tag_view()),
            decreases self.tasks.len() - i,
        {
            let ghost before = r@;
            let shown = filter.shows_task(&self.tasks[i]);
            if shown {
                r.push(i);
            }
            proof {
                let next = self@.take(i + 1);
                assert(next.drop_last() =~= self@.take(i as int));
                assert(next.last() == self.tasks@[i as int]@);
                if shown {
                    assert(indices_view(r@) =~= indices_view(before).push(i as int));
                } else {
                    assert(indices_view(r@) == indices_view(before));
                }
            }
            i += 1;
        }
        proof {
            assert(self@.take(i as int) =~= self@);
        }
        r
    }
}

} // verus!
