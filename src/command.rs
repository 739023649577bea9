use vstd::prelude::*;
use crate::filter::{ListFilter, StatusFilter, status_from_flags};
use crate::store::TaskAction;

verus! {

/// The flags and text given on a command line.
pub struct Request {
    /// The text of a task to add.
    pub task: Option<String>,
    /// The tags of a task to add.
    pub tags: Vec<String>,
    pub done: Option<usize>,
    pub toggle: Option<usize>,
    pub delete: Option<usize>,
    pub edit: Option<usize>,
    /// The new description for `edit`.
    pub message: Option<String>,
    pub show_done: bool,
    pub show_todo: bool,
    pub filter_tag: Option<String>,
}

/// The one thing a request asks for.
pub enum Command {
    /// Change the task at `index`.
    Update { index: usize, action: TaskAction },
    /// Append a new task.
    Add { description: String, tags: Vec<String> },
    /// Show the tasks that the filter admits.
    List(ListFilter),
}

/// Why a request asks for nothing that can be done.
#[derive(Debug, PartialEq, Eq)]
pub enum CommandError {
    /// A task to add was given together with a change to a task.
    ConflictingArguments,
    /// `edit` was given without a new description.
    MissingMessage,
}

/// Whether the request asks for a change to a task.
pub open spec fn asks_change(req: Request) -> bool {
    req.done is Some || req.delete is Some || req.edit is Some || req.toggle is Some
}

/// The command that a request asks for. Adding a task together with a change
/// is refused; otherwise the first of done, delete, edit and toggle that is
/// given is chosen, then adding, then a listing.
pub open spec fn planned(req: Request) -> Result<Command, CommandError> {
    if req.task is Some && asks_change(req) {
        Err(CommandError::ConflictingArguments)
    } else if req.done is Some {
        Ok(Command::Update { index: req.done->0, action: TaskAction::Done })
    } else if req.delete is Some {
        Ok(Command::Update { index: req.delete->0, action: TaskAction::Delete })
    } else if req.edit is Some {
        match req.message {
            Some(m) => Ok(Command::Update { index: req.edit->0, action: TaskAction::Edit(m) }),
            None => Err(CommandError::MissingMessage),
        }
    } else if req.toggle is Some {
        Ok(Command::Update { index: req.toggle->0, action: TaskAction::Toggle })
    } else if req.task is Some {
        Ok(Command::Add { description: req.task->0, tags: req.tags })
    } else {
        Ok(
            Command::List(
                ListFilter {
                    status: status_from_flags(req.show_done, req.show_todo),
                    tag: req.filter_tag,
                },
            ),
        )
    }
}

/// Whether the request asks for a change to a task.
pub fn is_action_requested(req: &Request) -> (r: bool)
    ensures
        r == asks_change(*req),
{
    req.done.is_some() || req.delete.is_some() || req.edit.is_some() || req.toggle.is_some()
}

/// The command that a request asks for.
pub fn plan(req: Request) -> (r: Result<Command, CommandError>)
    ensures
        r == planned(req),
{
    if req.task.is_some() && is_action_requested(&req) {
        return Err(CommandError::ConflictingArguments);
    }
    if let Some(index) = req.done {
        return Ok(Command::Update { index, action: TaskAction::Done });
    }
    if let Some(index) = req.delete {
        return Ok(Command::Update { index, action: TaskAction::Delete });
    }
    if let Some(index) = req.edit {
        return match req.message {
            Some(m) => Ok(Command::Update { index, action: TaskAction::Edit(m) }),
            None => Err(CommandError::MissingMessage),
        };
    }
    if let Some(index) = req.toggle {
        return Ok(Command::Update { index, action: TaskAction::Toggle });
    }
    match req.task {
        Some(description) => Ok(Command::Add { description, tags: req.tags }),
        None => Ok(
            Command::List(
                ListFilter {
                    status: StatusFilter::from_flags(req.show_done, req.show_todo),
                    tag: req.filter_tag,
                },
            ),
        ),
    }
}

} // verus!
