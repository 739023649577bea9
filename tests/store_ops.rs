use todo_store::command::{is_action_requested, plan, Command, CommandError, Request};
use todo_store::filter::{ListFilter, StatusFilter};
use todo_store::store::{Outcome, StoreError, TaskAction, TaskStore};
use todo_store::task::Task;

fn task(description: &str, done: bool, tags: &[&str]) -> Task {
    Task {
        description: description.to_string(),
        done,
        tags: tags.iter().map(|t| t.to_string()).collect(),
    }
}

fn snapshot(store: &TaskStore) -> Vec<(String, bool, Vec<String>)> {
    store
        .tasks()
        .iter()
        .map(|t| (t.description.clone(), t.done, t.tags.clone()))
        .collect()
}

fn request() -> Request {
    Request {
        task: None,
        tags: vec![],
        done: None,
        toggle: None,
        delete: None,
        edit: None,
        message: None,
        show_done: false,
        show_todo: false,
        filter_tag: None,
    }
}

#[test]
fn add_to_empty_store_then_list() {
    let mut store = TaskStore::new();
    let i = store.add("buy milk".to_string(), vec!["errand".to_string()]);
    assert_eq!(i, 0);
    assert_eq!(
        snapshot(&store),
        vec![("buy milk".to_string(), false, vec!["errand".to_string()])]
    );
    let shown = store.list(&ListFilter::all());
    assert_eq!(shown, vec![0]);
    let t = store.get(0).unwrap();
    assert!(!t.done);
    assert_eq!(t.tags, vec!["errand".to_string()]);
}

#[test]
fn add_keeps_existing_tasks() {
    let mut store = TaskStore::from_tasks(vec![task("a", true, &["x"]), task("b", false, &[])]);
    let before = snapshot(&store);
    let i = store.add("c".to_string(), vec![]);
    assert_eq!(i, 2);
    assert_eq!(store.len(), 3);
    assert_eq!(snapshot(&store)[..2], before[..]);
    assert!(!store.get(2).unwrap().done);
    assert!(store.get(2).unwrap().tags.is_empty());
}

#[test]
fn set_done_then_delete_first() {
    let mut store = TaskStore::from_tasks(vec![task("A", false, &[]), task("B", true, &[])]);
    assert_eq!(store.set_done(0), Ok(()));
    assert!(store.get(0).unwrap().done && store.get(1).unwrap().done);
    let removed = store.delete(0).unwrap();
    assert_eq!(removed.description, "A");
    assert_eq!(snapshot(&store), vec![("B".to_string(), true, vec![])]);
}

#[test]
fn set_done_twice_is_idempotent() {
    let mut store = TaskStore::from_tasks(vec![task("A", false, &[])]);
    assert_eq!(store.set_done(0), Ok(()));
    let once = snapshot(&store);
    assert_eq!(store.set_done(0), Ok(()));
    assert_eq!(snapshot(&store), once);
}

#[test]
fn edit_out_of_range_leaves_store() {
    let mut store = TaskStore::from_tasks(vec![task("A", false, &["t"])]);
    let before = snapshot(&store);
    assert_eq!(store.edit(5, "x".to_string()), Err(StoreError::OutOfRange));
    assert_eq!(snapshot(&store), before);
}

#[test]
fn every_index_operation_refuses_out_of_range() {
    let mut empty = TaskStore::new();
    assert_eq!(empty.set_done(0), Err(StoreError::OutOfRange));
    assert_eq!(empty.toggle(0), Err(StoreError::OutOfRange));
    assert!(matches!(empty.delete(0), Err(StoreError::OutOfRange)));
    assert_eq!(empty.edit(0, "x".to_string()), Err(StoreError::OutOfRange));
    assert!(empty.is_empty());

    let mut store = TaskStore::from_tasks(vec![task("A", false, &[]), task("B", true, &[])]);
    let before = snapshot(&store);
    assert_eq!(store.set_done(2), Err(StoreError::OutOfRange));
    assert_eq!(store.toggle(7), Err(StoreError::OutOfRange));
    assert!(matches!(store.delete(2), Err(StoreError::OutOfRange)));
    assert!(matches!(store.apply(3, TaskAction::Done), Err(StoreError::OutOfRange)));
    assert_eq!(snapshot(&store), before);
}

#[test]
fn toggle_twice_restores() {
    let mut store = TaskStore::from_tasks(vec![task("A", false, &["q"]), task("B", true, &[])]);
    let before = snapshot(&store);
    assert_eq!(store.toggle(1), Ok(false));
    assert!(!store.get(1).unwrap().done);
    assert_eq!(store.toggle(1), Ok(true));
    assert_eq!(snapshot(&store), before);
}

#[test]
fn delete_moves_later_tasks_down() {
    let mut store = TaskStore::from_tasks(vec![
        task("a", false, &[]),
        task("b", false, &[]),
        task("c", true, &[]),
        task("d", false, &["z"]),
    ]);
    let removed = store.delete(1).unwrap();
    assert_eq!(removed.description, "b");
    let names: Vec<String> = store.tasks().iter().map(|t| t.description.clone()).collect();
    assert_eq!(names, vec!["a", "c", "d"]);
    assert!(store.get(1).unwrap().done);
    assert!(store.get(3).is_none());
}

#[test]
fn edit_keeps_flag_and_tags() {
    let mut store = TaskStore::from_tasks(vec![task("old", true, &["home"])]);
    assert_eq!(store.edit(0, "new".to_string()), Ok("old".to_string()));
    assert_eq!(snapshot(&store), vec![("new".to_string(), true, vec!["home".to_string()])]);
}

#[test]
fn apply_reports_each_action() {
    let mut store = TaskStore::from_tasks(vec![task("a", false, &[]), task("b", false, &[])]);
    assert!(matches!(store.apply(0, TaskAction::Done), Ok(Outcome::MarkedDone)));
    assert!(matches!(store.apply(1, TaskAction::Toggle), Ok(Outcome::Toggled(true))));
    match store.apply(1, TaskAction::Edit("B".to_string())) {
        Ok(Outcome::Edited { before, after }) => {
            assert_eq!(before, "b");
            assert_eq!(after, "B");
        }
        _ => panic!("expected an edit"),
    }
    match store.apply(0, TaskAction::Delete) {
        Ok(Outcome::Deleted(t)) => assert_eq!(t.description, "a"),
        _ => panic!("expected a deletion"),
    }
    assert_eq!(snapshot(&store), vec![("B".to_string(), true, vec![])]);
}

#[test]
fn list_filters_by_status_and_tag() {
    let store = TaskStore::from_tasks(vec![
        task("a", true, &["Work"]),
        task("b", false, &["work"]),
        task("c", true, &["home"]),
        task("d", true, &["x", "WORK"]),
    ]);
    let f = |status, tag: Option<&str>| ListFilter { status, tag: tag.map(|t| t.to_string()) };
    assert_eq!(store.list(&f(StatusFilter::Any, None)), vec![0, 1, 2, 3]);
    assert_eq!(store.list(&f(StatusFilter::DoneOnly, None)), vec![0, 2, 3]);
    assert_eq!(store.list(&f(StatusFilter::TodoOnly, None)), vec![1]);
    assert_eq!(store.list(&f(StatusFilter::Any, Some("work"))), vec![0, 1, 3]);
    assert_eq!(store.list(&f(StatusFilter::DoneOnly, Some("wOrK"))), vec![0, 3]);
    assert_eq!(store.list(&f(StatusFilter::TodoOnly, Some("home"))), Vec::<usize>::new());
    assert_eq!(store.list(&f(StatusFilter::Any, Some("wor"))), Vec::<usize>::new());
}

#[test]
fn tag_match_ignores_only_ascii_case() {
    let store = TaskStore::from_tasks(vec![task("a", false, &["Ärger"]), task("b", false, &["ärger"])]);
    let filter = ListFilter { status: StatusFilter::Any, tag: Some("äRGER".to_string()) };
    assert_eq!(store.list(&filter), vec![1]);
}

#[test]
fn done_flag_wins_over_todo_flag() {
    assert_eq!(StatusFilter::from_flags(true, true), StatusFilter::DoneOnly);
    assert_eq!(StatusFilter::from_flags(false, true), StatusFilter::TodoOnly);
    assert_eq!(StatusFilter::from_flags(false, false), StatusFilter::Any);
    let store = TaskStore::from_tasks(vec![task("a", true, &[]), task("b", false, &[])]);
    let filter = ListFilter { status: StatusFilter::from_flags(true, true), tag: None };
    assert_eq!(store.list(&filter), vec![0]);
}

#[test]
fn plan_add_with_change_conflicts() {
    let mut req = request();
    req.task = Some("x".to_string());
    req.toggle = Some(1);
    assert!(is_action_requested(&req));
    assert!(matches!(plan(req), Err(CommandError::ConflictingArguments)));
}

#[test]
fn plan_edit_without_message_fails() {
    let mut req = request();
    req.edit = Some(0);
    assert!(matches!(plan(req), Err(CommandError::MissingMessage)));
}

#[test]
fn plan_chooses_in_order() {
    let mut req = request();
    req.delete = Some(2);
    req.toggle = Some(1);
    assert!(matches!(plan(req), Ok(Command::Update { index: 2, action: TaskAction::Delete })));

    let mut req = request();
    req.edit = Some(3);
    req.message = Some("m".to_string());
    match plan(req) {
        Ok(Command::Update { index: 3, action: TaskAction::Edit(m) }) => assert_eq!(m, "m"),
        _ => panic!("expected an edit"),
    }

    let mut req = request();
    req.task = Some("buy milk".to_string());
    req.tags = vec!["errand".to_string()];
    assert!(!is_action_requested(&req));
    match plan(req) {
        Ok(Command::Add { description, tags }) => {
            assert_eq!(description, "buy milk");
            assert_eq!(tags, vec!["errand".to_string()]);
        }
        _ => panic!("expected an addition"),
    }

    let mut req = request();
    req.show_todo = true;
    req.filter_tag = Some("t".to_string());
    match plan(req) {
        Ok(Command::List(f)) => {
            assert_eq!(f.status, StatusFilter::TodoOnly);
            assert_eq!(f.tag, Some("t".to_string()));
        }
        _ => panic!("expected a listing"),
    }
}
