use vstd::prelude::*;
use crate::task::{Task, TaskView};

verus! {

/// Which tasks a listing shows by their `done` flag.
#[derive(Clone, Copy, Debug, PartialEq, Eq, Structural)]
pub enum StatusFilter {
    Any,
    DoneOnly,
    TodoOnly,
}

/// Whether the status filter admits a task with this `done` flag.
pub open spec fn status_admits(s: StatusFilter, done: bool) -> bool {
    match s {
        StatusFilter::Any => true,
        StatusFilter::DoneOnly => done,
        StatusFilter::TodoOnly => !done,
    }
}

/// The status filter asked for by the two flags; asking for done tasks wins
/// over asking for those not done.
pub open spec fn status_from_flags(show_done: bool, show_todo: bool) -> StatusFilter {
    if show_done {
        StatusFilter::DoneOnly
    } else if show_todo {
        StatusFilter::TodoOnly
    } else {
        StatusFilter::Any
    }
}

impl StatusFilter {
    /// The status filter asked for by the two flags; asking for done tasks
    /// wins over asking for those not done.
    pub fn from_flags(show_done: bool, show_todo: bool) -> (r: StatusFilter)
        ensures
            r == status_from_flags(show_done, show_todo),
    {
        if show_done {
            StatusFilter::DoneOnly
        } else if show_todo {
            StatusFilter::TodoOnly
        } else {
            StatusFilter::Any
        }
    }

    /// Whether this filter admits a task with this `done` flag.
    pub fn admits(&self, done: bool) -> (r: bool)
        ensures
            r == status_admits(*self, done),
    {
        match self {
            StatusFilter::Any => true,
            StatusFilter::DoneOnly => done,
            StatusFilter::TodoOnly => !done,
        }
    }
}

/// Whether `c` is an ASCII capital letter.
pub open spec fn is_ascii_upper(c: char) -> bool {
    65 <= (c as u32) && (c as u32) <= 90
}

/// Whether two characters are equal once ASCII capitals are made small.
pub open spec fn ascii_fold_eq(a: char, b: char) -> bool {
    a == b || (is_ascii_upper(a) && (b as u32) == (a as u32) + 32) || (is_ascii_upper(b) && (a as u32)
        == (b as u32) + 32)
}

/// Whether two texts are equal up to the case of ASCII letters.
pub open spec fn ascii_ci_eq(a: Seq<char>, b: Seq<char>) -> bool {
    a.len() == b.len() && forall|i: int| 0 <= i < a.len() ==> ascii_fold_eq(#[trigger] a[i], b[i])
}

/// Relies on `str::eq_ignore_ascii_case`: equality after mapping ASCII capitals
/// to small letters, all other characters kept.
#[verifier::external_body]
fn eq_ignore_ascii_case(a: &str, b: &str) -> (r: bool)
    ensures
        r == ascii_ci_eq(a@, b@),
{
    a.eq_ignore_ascii_case(b)
}

/// Whether one of the tags equals `tag` up to the case of ASCII letters.
pub open spec fn has_tag(tags: Seq<Seq<char>>, tag: Seq<char>) -> bool {
    exists|i: int| 0 <= i < tags.len() && ascii_ci_eq(#[trigger] tags[i], tag)
}

/// Whether a listing with this status filter and optional tag shows the task.
pub open spec fn shows(status: StatusFilter, tag: Option<Seq<char>>, t: TaskView) -> bool {
    status_admits(status, t.done) && match tag {
        Some(g) => has_tag(t.tags, g),
        None => true,
    }
}

/// What a listing shows: a status filter, and a tag that a shown task must
/// carry when one is given.
pub struct ListFilter {
    pub status: StatusFilter,
    pub tag: Option<String>,
}

impl ListFilter {
    /// The tag, as text.
    pub open spec fn tag_view(&self) -> Option<Seq<char>> {
        match self.tag {
            Some(g) => Some(g@),
            None => None,
        }
    }

    /// A filter that shows every task.
    pub fn all() -> (r: ListFilter)
        ensures
            r.status == StatusFilter::Any,
            r.tag_view() is None,
    {
        ListFilter { status: StatusFilter::Any, tag: None }
    }

    /// Whether the listing shows `t`.
    pub fn shows_task(&self, t: &Task) -> (r: bool)
        ensures
            r == shows(self.status, self.tag_view(), t@),
    {
        if !self.status.admits(t.done) {
            return false;
        }
        match self.tag.as_ref() {
            None => true,
            Some(g) => {
                let mut i: usize = 0;
                while i < t.tags.len()
                    invariant
                        i <= t.tags.len(),
                        status_admits(self.status, t@.done),
                        self.tag_view() == Some(g@),
                        forall|j: int| 0 <= j < i ==> !ascii_ci_eq(#[trigger] t@.tags[j], g@),
                    decreases t.tags.len() - i,
                {
                    if eq_ignore_ascii_case(t.tags[i].as_str(), g.as_str()) {
                        assert(t@.tags[i as int] == t.tags@[i as int]@);
                        assert(ascii_ci_eq(t@.tags[i as int], g@));
                        return true;
                    }
                    assert(t@.tags[i as int] == t.tags@[i as int]@);
                    i += 1;
                }
                false
            },
        }
    }
}

} // verus!
