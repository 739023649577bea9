use vstd::prelude::*;
use crate::task::{Task, TaskView, strings_view};
use crate::store::{TaskStore, tasks_view};

verus! {

#[verifier::external_type_specification]
#[verifier::external_body]
pub struct ExValue(serde_json::Value);

/// A JSON value as mathematical values. Object keys are kept in a map, as
/// serde_json keeps them in a sorted map.
pub enum JsonTree {
    Null,
    Bool(bool),
    /// A number, as the text serde_json writes for it.
    Number(Seq<char>),
    Str(Seq<char>),
    Array(Seq<JsonTree>),
    Object(Map<Seq<char>, JsonTree>),
}

/// What a `serde_json::Value` holds.
pub uninterp spec fn tree_of(v: serde_json::Value) -> JsonTree;

/// The value that serde_json reads from a text, if the text is JSON.
pub uninterp spec fn parsed_json(s: Seq<char>) -> Option<JsonTree>;

/// The indented text that serde_json writes for a value.
pub uninterp spec fn rendered_json(t: JsonTree) -> Seq<char>;

/// What each value of a sequence holds.
pub open spec fn trees(vs: Seq<serde_json::Value>) -> Seq<JsonTree> {
    vs.map_values(|v: serde_json::Value| tree_of(v))
}

/// The object that a list of fields with distinct keys makes.
pub open spec fn fields_map(fs: Seq<(String, serde_json::Value)>) -> Map<Seq<char>, JsonTree>
    decreases fs.len(),
{
    if fs.len() == 0 {
        Map::empty()
    } else {
        fields_map(fs.drop_last()).insert(fs.last().0@, tree_of(fs.last().1))
    }
}

/// Relies on `serde_json::from_str` into a `Value`: it succeeds exactly on JSON
/// text, and the value depends on the text alone.
#[verifier::external_body]
fn parse_json(text: &str) -> (r: Option<serde_json::Value>)
    ensures
        r is Some <==> parsed_json(text@) is Some,
        r is Some ==> parsed_json(text@) == Some(tree_of(r->0)),
{
    serde_json::from_str(text).ok()
}

/// Relies on `serde_json::to_string_pretty` on a `Value`: it writes into a
/// `Vec`, which cannot fail, and a `Value` only holds what JSON can write; the
/// text depends on the value alone. The JSON form of a list of tasks (strings,
/// flags, and nesting three deep) is read back by `serde_json::from_str` as the
/// same value, strings being escaped and unescaped exactly.
#[verifier::external_body]
fn render_json(v: &serde_json::Value) -> (r: Option<String>)
    ensures
        r is Some,
        r->0@ == rendered_json(tree_of(*v)),
        (exists|ts: Seq<TaskView>| #[trigger] tasks_tree(ts) == tree_of(*v)) ==> parsed_json(r->0@)
            == Some(tree_of(*v)),
{
    serde_json::to_string_pretty(v).ok()
}

/// Relies on `serde_json::Value::as_array`: the items of an array, nothing
/// for any other value.
#[verifier::external_body]
fn json_items(v: &serde_json::Value) -> (r: Option<&Vec<serde_json::Value>>)
    ensures
        match tree_of(*v) {
            JsonTree::Array(items) => r is Some && trees(r->0@) == items,
            _ => r is None,
        },
{
    v.as_array()
}

/// Relies on `serde_json::Value::get` with a text key: the field of an object
/// under that key, nothing when there is none or the value is no object.
#[verifier::external_body]
fn json_field<'a>(v: &'a serde_json::Value, key: &str) -> (r: Option<&'a serde_json::Value>)
    ensures
        match tree_of(*v) {
            JsonTree::Object(m) => (r is Some <==> m.contains_key(key@)) && (r is Some ==> tree_of(
                *r->0,
            ) == m[key@]),
            _ => r is None,
        },
{
    v.get(key)
}

/// Relies on `serde_json::Value::as_str`: the text of a string, nothing for any
/// other value.
#[verifier::external_body]
fn json_text(v: &serde_json::Value) -> (r: Option<&str>)
    ensures
        match tree_of(*v) {
            JsonTree::Str(s) => r is Some && r->0@ == s,
            _ => r is None,
        },
{
    v.as_str()
}

/// Relies on `serde_json::Value::as_bool`: the flag of a boolean, nothing for
/// any other value.
#[verifier::external_body]
fn json_flag(v: &serde_json::Value) -> (r: Option<bool>)
    ensures
        match tree_of(*v) {
            JsonTree::Bool(b) => r == Some(b),
            _ => r is None,
        },
{
    v.as_bool()
}

/// Relies on `serde_json::Value::String`.
#[verifier::external_body]
fn json_string(s: String) -> (r: serde_json::Value)
    ensures
        tree_of(r) == JsonTree::Str(s@),
{
    serde_json::Value::String(s)
}

/// Relies on `serde_json::Value::Bool`.
#[verifier::external_body]
fn json_bool(b: bool) -> (r: serde_json::Value)
    ensures
        tree_of(r) == JsonTree::Bool(b),
{
    serde_json::Value::Bool(b)
}

/// Relies on `serde_json::Value::Array`.
#[verifier::external_body]
fn json_array(items: Vec<serde_json::Value>) -> (r: serde_json::Value)
    ensures
        tree_of(r) == JsonTree::Array(trees(items@)),
{
    serde_json::Value::Array(items)
}

/// Relies on `serde_json::Value::Object` and on `serde_json::Map` built from
/// fields with distinct keys.
#[verifier::external_body]
fn json_object(fields: Vec<(String, serde_json::Value)>) -> (r: serde_json::Value)
    requires
        forall|i: int, j: int| 0 <= i < j < fields@.len() ==> fields@[i].0@ != fields@[j].0@,
    ensures
        tree_of(r) == JsonTree::Object(fields_map(fields@)),
{
    serde_json::Value::Object(fields.into_iter().collect())
}

/// The JSON form of a task: an object with its description, its flag and its
/// tags.
pub open spec fn task_tree(t: TaskView) -> JsonTree {
    JsonTree::Object(
        map![
            "description"@ => JsonTree::Str(t.description),
            "done"@ => JsonTree::Bool(t.done),
            "tags"@ => JsonTree::Array(t.tags.map_values(|g: Seq<char>| JsonTree::Str(g))),
        ],
    )
}

/// The JSON form of a list of tasks: an array of their forms, in order.
pub open spec fn tasks_tree(ts: Seq<TaskView>) -> JsonTree {
    JsonTree::Array(ts.map_values(|t: TaskView| task_tree(t)))
}

/// The tags that a `tags` field gives: none when the field is absent, the
/// texts of an array of strings, and nothing valid otherwise.
pub open spec fn tags_of_tree(field: Option<JsonTree>) -> Option<Seq<Seq<char>>> {
    match field {
        None => Some(Seq::empty()),
        Some(JsonTree::Array(items)) => if forall|i: int| 0 <= i < items.len() ==> #[trigger] items[i] is Str {
            Some(items.map_values(|x: JsonTree| x->Str_0))
        } else {
            None
        },
        Some(_) => None,
    }
}

/// The field of an object under a key, if there is one.
pub open spec fn field_of(m: Map<Seq<char>, JsonTree>, key: Seq<char>) -> Option<JsonTree> {
    if m.contains_key(key) {
        Some(m[key])
    } else {
        None
    }
}

/// The task that a JSON value describes: an object with a string
/// `description`, a boolean `done` and optional `tags`; other fields are
/// ignored.
pub open spec fn task_of_tree(t: JsonTree) -> Option<TaskView> {
    match t {
        JsonTree::Object(m) => match (
            field_of(m, "description"@),
            field_of(m, "done"@),
            tags_of_tree(field_of(m, "tags"@)),
        ) {
            (Some(JsonTree::Str(d)), Some(JsonTree::Bool(b)), Some(tags)) => Some(
                TaskView { description: d, done: b, tags },
            ),
            _ => None,
        },
        _ => None,
    }
}

/// The tasks that a JSON value describes: an array whose every item describes
/// a task.
pub open spec fn tasks_of_tree(t: JsonTree) -> Option<Seq<TaskView>> {
    match t {
        JsonTree::Array(items) => if forall|i: int|
            0 <= i < items.len() ==> #[trigger] task_of_tree(items[i]) is Some {
            Some(items.map_values(|x: JsonTree| task_of_tree(x)->0))
        } else {
            None
        },
        _ => None,
    }
}

/// The tasks that a stored text holds: none when it is not JSON or does not
/// describe a list of tasks.
pub open spec fn loaded(text: Seq<char>) -> Seq<TaskView> {
    match parsed_json(text) {
        Some(t) => match tasks_of_tree(t) {
            Some(ts) => ts,
            None => Seq::empty(),
        },
        None => Seq::empty(),
    }
}

/// The three field names of a task's JSON form differ.
proof fn lemma_field_keys_distinct()
    ensures
        "description"@ != "done"@,
        "done"@ != "tags"@,
        "description"@ != "tags"@,
{
    reveal_strlit("description");
    reveal_strlit("done");
    reveal_strlit("tags");
    assert("description"@.len() == 11 && "done"@.len() == 4 && "tags"@.len() == 4);
    assert("done"@[0] == 'd' && "tags"@[0] == 't');
}

/// Reading back the JSON form of a list of tasks gives the same tasks.
pub proof fn law_json_form_round_trip(ts: Seq<TaskView>)
    ensures
        tasks_of_tree(tasks_tree(ts)) == Some(ts),
{
    let items = ts.map_values(|t: TaskView| task_tree(t));
    assert forall|i: int| 0 <= i < items.len() implies #[trigger] task_of_tree(items[i]) == Some(ts[i]) by {
        let t = ts[i];
        let m = map![
            "description"@ => JsonTree::Str(t.description),
            "done"@ => JsonTree::Bool(t.done),
            "tags"@ => JsonTree::Array(t.tags.map_values(|g: Seq<char>| JsonTree::Str(g))),
        ];
        lemma_field_keys_distinct();
        assert(field_of(m, "description"@) == Some(JsonTree::Str(t.description)));
        assert(field_of(m, "done"@) == Some(JsonTree::Bool(t.done)));
        let gs = t.tags.map_values(|g: Seq<char>| JsonTree::Str(g));
        assert(field_of(m, "tags"@) == Some(JsonTree::Array(gs)));
        assert(gs.map_values(|x: JsonTree| x->Str_0) =~= t.tags);
    }
    assert(items.map_values(|x: JsonTree| task_of_tree(x)->0) =~= ts);
}

/// The strings of a list of JSON values, as JSON strings.
pub open spec fn string_trees(gs: Seq<Seq<char>>) -> Seq<JsonTree> {
    gs.map_values(|g: Seq<char>| JsonTree::Str(g))
}

/// The JSON form of a task.
pub fn task_to_json(t: &Task) -> (r: serde_json::Value)
    ensures
        tree_of(r) == task_tree(t@),
{
    let mut tags: Vec<serde_json::Value> = Vec::new();
    let mut i: usize = 0;
    while i < t.tags.len()
        invariant
            i <= t.tags.len(),
            trees(tags@) == string_trees(t@.tags.take(i as int)),
        decreases t.tags.len() - i,
    {
        let ghost before = tags@;
        tags.push(json_string(t.tags[i].clone()));
        proof {
            assert(trees(tags@) =~= trees(before).push(JsonTree::Str(t@.tags[i as int])));
            assert(t@.tags.take(i + 1) =~= t@.tags.take(i as int).push(t@.tags[i as int]));
            assert(string_trees(t@.tags.take(i + 1)) =~= string_trees(t@.tags.take(i as int)).push(
                JsonTree::Str(t@.tags[i as int]),
            ));
        }
        i += 1;
    }
    proof {
        assert(t@.tags.take(i as int) =~= t@.tags);
    }
    let fields = vec![
        (String::from_str("description"), json_string(t.description.clone())),
        (String::from_str("done"), json_bool(t.done)),
        (String::from_str("tags"), json_array(tags)),
    ];
    proof {
        lemma_field_keys_distinct();
    }
    let r = json_object(fields);
    proof {
        let fs = fields@;
        let f2 = fs.drop_last();
        let f1 = f2.drop_last();
        let f0 = f1.drop_last();
        assert(f0.len() == 0);
        assert(f1.last() == fs[0] && f2.last() == fs[1] && fs.last() == fs[2]);
        assert(fields_map(f1) == fields_map(f0).insert(fs[0].0@, tree_of(fs[0].1)));
        assert(fields_map(f2) == fields_map(f1).insert(fs[1].0@, tree_of(fs[1].1)));
        assert(fields_map(fs) == fields_map(f2).insert(fs[2].0@, tree_of(fs[2].1)));
        assert(fields_map(fs) =~= task_tree(t@)->Object_0);
    }
    r
}

/// The JSON form of a list of tasks.
pub fn tasks_to_json(ts: &Vec<Task>) -> (r: serde_json::Value)
    ensures
        tree_of(r) == tasks_tree(tasks_view(ts@)),
{
    let mut items: Vec<serde_json::Value> = Vec::new();
    let mut i: usize = 0;
    while i < ts.len()
        invariant
            i <= ts.len(),
            trees(items@) == tasks_view(ts@).take(i as int).map_values(|t: TaskView| task_tree(t)),
        decreases ts.len() - i,
    {
        let ghost before = items@;
        items.push(task_to_json(&ts[i]));
        proof {
            let vs = tasks_view(ts@);
            assert(trees(items@) =~= trees(before).push(task_tree(vs[i as int])));
            assert(vs.take(i + 1) =~= vs.take(i as int).push(vs[i as int]));
            assert(vs.take(i + 1).map_values(|t: TaskView| task_tree(t)) =~= vs.take(i as int).map_values(
                |t: TaskView| task_tree(t),
            ).push(task_tree(vs[i as int])));
        }
        i += 1;
    }
    proof {
        assert(tasks_view(ts@).take(i as int) =~= tasks_view(ts@));
    }
    json_array(items)
}

/// The tags that a `tags` field holds, if it is an array of strings.
pub fn tags_from_json(v: &serde_json::Value) -> (r: Option<Vec<String>>)
    ensures
        match tags_of_tree(Some(tree_of(*v))) {
            Some(gs) => r is Some && strings_view(r->0@) == gs,
            None => r is None,
        },
{
    let items = match json_items(v) {
        Some(items) => items,
        None => return None,
    };
    let ghost ts = trees(items@);
    let mut out: Vec<String> = Vec::new();
    let mut i: usize = 0;
    while i < items.len()
        invariant
            i <= items.len(),
            ts == trees(items@),
            tree_of(*v) == JsonTree::Array(ts),
            forall|j: int| 0 <= j < i ==> #[trigger] ts[j] is Str,
            strings_view(out@) == ts.take(i as int).map_values(|x: JsonTree| x->Str_0),
        decreases items.len() - i,
    {
        let s = match json_text(&items[i]) {
            Some(s) => s,
            None => {
                assert(!(ts[i as int] is Str));
                return None;
            },
        };
        let ghost before = out@;
        out.push(String::from_str(s));
        proof {
            assert(strings_view(out@) =~= strings_view(before).push(s@));
            assert(ts.take(i + 1) =~= ts.take(i as int).push(ts[i as int]));
            assert(ts.take(i + 1).map_values(|x: JsonTree| x->Str_0) =~= ts.take(i as int).map_values(
                |x: JsonTree| x->Str_0,
            ).push(s@));
        }
        i += 1;
    }
    proof {
        assert(ts.take(i as int) =~= ts);
    }
    Some(out)
}

/// The task that a JSON value describes, if it describes one.
pub fn task_from_json(v: &serde_json::Value) -> (r: Option<Task>)
    ensures
        match task_of_tree(tree_of(*v)) {
            Some(t) => r is Some && r->0@ == t,
            None => r is None,
        },
{
    let d = match json_field(v, "description") {
        Some(d) => d,
        None => return None,
    };
    let description = match json_text(d) {
        Some(s) => String::from_str(s),
        None => return None,
    };
    let f = match json_field(v, "done") {
        Some(f) => f,
        None => return None,
    };
    let done = match json_flag(f) {
        Some(b) => b,
        None => return None,
    };
    let tags = match json_field(v, "tags") {
        None => Vec::new(),
        Some(g) => match tags_from_json(g) {
            Some(tags) => tags,
            None => return None,
        },
    };
    let r = Task { description, done, tags };
    proof {
        assert(strings_view(r.tags@) == tags_of_tree(field_of(tree_of(*v)->Object_0, "tags"@))->0);
    }
    Some(r)
}

/// The tasks that a JSON value describes, if it is an array whose every item
/// describes a task.
pub fn tasks_from_json(v: &serde_json::Value) -> (r: Option<Vec<Task>>)
    ensures
        match tasks_of_tree(tree_of(*v)) {
            Some(ts) => r is Some && tasks_view(r->0@) == ts,
            None => r is None,
        },
{
    let items = match json_items(v) {
        Some(items) => items,
        None => return None,
    };
    let ghost ts = trees(items@);
    let mut out: Vec<Task> = Vec::new();
    let mut i: usize = 0;
    while i < items.len()
        invariant
            i <= items.len(),
            ts == trees(items@),
            tree_of(*v) == JsonTree::Array(ts),
            forall|j: int| 0 <= j < i ==> #[trigger] task_of_tree(ts[j]) is Some,
            tasks_view(out@) == ts.take(i as int).map_values(|x: JsonTree| task_of_tree(x)->0),
        decreases items.len() - i,
    {
        let t = match task_from_json(&items[i]) {
            Some(t) => t,
            None => {
                assert(ts[i as int] == tree_of(items@[i as int]));
                assert(!(task_of_tree(ts[i as int]) is Some));
                return None;
            },
        };
        let ghost before = out@;
        out.push(t);
        proof {
            assert(tasks_view(out@) =~= tasks_view(before).push(t@));
            assert(ts.take(i + 1) =~= ts.take(i as int).push(ts[i as int]));
            assert(ts.take(i + 1).map_values(|x: JsonTree| task_of_tree(x)->0) =~= ts.take(
                i as int,
            ).map_values(|x: JsonTree| task_of_tree(x)->0).push(t@));
        }
        i += 1;
    }
    proof {
        assert(ts.take(i as int) =~= ts);
    }
    Some(out)
}

/// Reads a stored text. A text that is not JSON, or does not describe a list
/// of tasks, gives an empty store rather than an error.
pub fn load_tasks(text: &str) -> (r: TaskStore)
    ensures
        r@ == loaded(text@),
        parsed_json(text@) is None ==> r@.len() == 0,
{
    match parse_json(text) {
        None => TaskStore::new(),
        Some(v) => match tasks_from_json(&v) {
            Some(ts) => TaskStore::from_tasks(ts),
            None => TaskStore::new(),
        },
    }
}

/// The indented JSON text of the store's tasks. Reading it back gives the
/// same tasks.
pub fn save_tasks(store: &TaskStore) -> (r: String)
    ensures
        r@ == rendered_json(tasks_tree(store@)),
        loaded(r@) == store@,
{
    let v = tasks_to_json(store.tasks());
    let r = render_json(&v);
    proof {
        assert(tasks_tree(store@) == tree_of(v));
        law_json_form_round_trip(store@);
    }
    r.unwrap()
}

} // verus!
