use vstd::prelude::*;

verus! {

/// One to-do item.
pub struct Task {
    pub description: String,
    pub done: bool,
    pub tags: Vec<String>,
}

/// What a task holds, as mathematical values.
pub struct TaskView {
    pub description: Seq<char>,
    pub done: bool,
    pub tags: Seq<Seq<char>>,
}

/// The text of each string in a sequence.
pub open spec fn strings_view(v: Seq<String>) -> Seq<Seq<char>> {
    v.map_values(|s: String| s@)
}

impl View for Task {
    type V = TaskView;

    open spec fn view(&self) -> TaskView {
        TaskView { description: self.description@, done: self.done, tags: strings_view(self.tags@) }
    }
}

impl Task {
    /// A new task that is not done yet.
    pub fn new(description: String, tags: Vec<String>) -> (r: Task)
        ensures
            r@ == (TaskView { description: description@, done: false, tags: strings_view(tags@) }),
    {
        Task { description, done: false, tags }
    }
}

} // verus!
