//! The file format: a JSON array of objects, one object for each task, each
//! with the string members `id`, `task`, `time` and `status`.
//!
//! Writing goes from a list of tasks to a JSON value and on to indented text;
//! reading goes from text to a JSON value and on to a list of tasks. Text and
//! values are `serde_json`'s; what a value has to hold to stand for a list of
//! tasks is decided here.
//!
//! A text is handed out for storing only after it was read back and gave the
//! list it was made from, so what is stored always loads as what was saved.

use crate::json::{
    array_items, array_value, distinct_names, doc, docs, error_text, lemma_member_at, member,
    member_docs, object_member, object_value, parse_value, parsed, print_pretty, printed,
    string_text, string_value, strings_only, Json,
};
use crate::task::{task_list, Task, TaskView};
use vstd::prelude::*;

verus! {

/// The members of the object that stands for a task, in the order in which
/// they are written.
pub open spec fn task_members(t: TaskView) -> Seq<(Seq<char>, Json)> {
    seq![
        ("id"@, Json::Str(t.id)),
        ("task"@, Json::Str(t.task)),
        ("time"@, Json::Str(t.time)),
        ("status"@, Json::Str(t.status)),
    ]
}

/// The object that stands for a task.
pub open spec fn task_document(t: TaskView) -> Json {
    Json::Object(task_members(t))
}

/// The array that stands for a list of tasks: one object for each task, in the
/// order of the list.
pub open spec fn tasks_document(list: Seq<TaskView>) -> Json {
    Json::Array(list.map_values(|t: TaskView| task_document(t)))
}

/// The text that a list of tasks is printed as: the indented JSON of the
/// array that stands for it. `None` where the printer fails on that array.
pub open spec fn encoded(list: Seq<TaskView>) -> Option<Seq<char>> {
    printed(tasks_document(list))
}

/// The string under a name in an object; `None` where the document is no
/// object, holds no such name, or holds something else than a string under it.
pub open spec fn member_text(j: Json, name: Seq<char>) -> Option<Seq<char>> {
    match member(j, name) {
        Some(Json::Str(s)) => Some(s),
        _ => None,
    }
}

/// The task that a document stands for: an object with a string under each of
/// the four names. Whatever else the object holds is passed over.
pub open spec fn document_task(j: Json) -> Option<TaskView> {
    match (
        member_text(j, "id"@),
        member_text(j, "task"@),
        member_text(j, "time"@),
        member_text(j, "status"@),
    ) {
        (Some(id), Some(task), Some(time), Some(status)) => Some(
            TaskView { id, task, time, status },
        ),
        _ => None,
    }
}

/// The list of tasks that a document stands for: an array whose items all
/// stand for tasks, in the order of the array.
pub open spec fn document_tasks(j: Json) -> Option<Seq<TaskView>> {
    match j {
        Json::Array(items) => if forall|i: int|
            0 <= i < items.len() ==> document_task(#[trigger] items[i]) is Some {
            Some(items.map_values(|item: Json| document_task(item).unwrap()))
        } else {
            None
        },
        _ => None,
    }
}

/// The list of tasks that a stored text stands for, if it stands for one.
pub open spec fn decoded(text: Seq<char>) -> Option<Seq<TaskView>> {
    match parsed(text) {
        Some(j) => document_tasks(j),
        None => None,
    }
}

/// The text is the one that the list is printed as, and it reads back as the
/// list.
pub open spec fn stores(content: Seq<char>, list: Seq<TaskView>) -> bool {
    encoded(list) == Some(content) && decoded(content) == Some(list)
}

/// The list can be stored: it is printed as a text, and that text reads back
/// as the list.
pub open spec fn storable(list: Seq<TaskView>) -> bool {
    encoded(list) matches Some(content) && decoded(content) == Some(list)
}

/// The four member names differ from one another.
proof fn lemma_member_names_differ()
    ensures
        "id"@ != "task"@,
        "id"@ != "time"@,
        "id"@ != "status"@,
        "task"@ != "time"@,
        "task"@ != "status"@,
        "time"@ != "status"@,
{
    reveal_strlit("id");
    reveal_strlit("task");
    reveal_strlit("time");
    reveal_strlit("status");
    assert("id"@.len() == 2);
    assert("task"@.len() == 4);
    assert("time"@.len() == 4);
    assert("status"@.len() == 6);
    assert("task"@[1] != "time"@[1]);
}

/// The object that stands for a task holds four strings under four different
/// names.
proof fn lemma_task_document_strings_only(t: TaskView)
    ensures
        distinct_names(task_members(t)),
        strings_only(task_document(t)),
{
    lemma_member_names_differ();
    let members = task_members(t);
    assert forall|i: int| 0 <= i < members.len() implies strings_only(
        (#[trigger] members[i]).1,
    ) by {
        assert(members[i].1 is Str);
    }
}

/// The array that stands for a list of tasks is made of strings, arrays and
/// objects only.
proof fn lemma_tasks_document_strings_only(list: Seq<TaskView>)
    ensures
        strings_only(tasks_document(list)),
{
    let items = tasks_document(list)->Array_0;
    assert forall|i: int| 0 <= i < items.len() implies strings_only(#[trigger] items[i]) by {
        lemma_task_document_strings_only(list[i]);
    }
}

/// Reading back the object that stands for a task gives that task.
pub proof fn lemma_task_round_trip(t: TaskView)
    ensures
        document_task(task_document(t)) == Some(t),
{
    lemma_task_document_strings_only(t);
    let members = task_members(t);
    lemma_member_at(members, 0);
    lemma_member_at(members, 1);
    lemma_member_at(members, 2);
    lemma_member_at(members, 3);
}

/// Reading back the document that stands for a list of tasks gives that list:
/// the same tasks in the same order.
pub proof fn lemma_round_trip(list: Seq<TaskView>)
    ensures
        document_tasks(tasks_document(list)) == Some(list),
{
    let items = tasks_document(list)->Array_0;
    assert forall|i: int| 0 <= i < items.len() implies document_task(#[trigger] items[i])
        == Some(list[i]) by {
        lemma_task_round_trip(list[i]);
    }
    assert(items.map_values(|item: Json| document_task(item).unwrap()) =~= list);
}

/// The JSON value that stands for a task.
pub fn task_to_value(t: &Task) -> (v: serde_json::Value)
    ensures
        doc(v) == task_document(t@),
{
    let mut members: Vec<(String, serde_json::Value)> = Vec::new();
    members.push(("id".to_owned(), string_value(t.id.clone())));
    members.push(("task".to_owned(), string_value(t.task.clone())));
    members.push(("time".to_owned(), string_value(t.time.clone())));
    members.push(("status".to_owned(), string_value(t.status.clone())));
    proof {
        assert(member_docs(members@) =~= task_members(t@));
        lemma_task_document_strings_only(t@);
    }
    object_value(members)
}

/// The JSON value that stands for a list of tasks. Read back, it gives the
/// same list.
pub fn tasks_to_value(tasks: &Vec<Task>) -> (v: serde_json::Value)
    ensures
        doc(v) == tasks_document(task_list(tasks@)),
        document_tasks(doc(v)) == Some(task_list(tasks@)),
{
    let mut values: Vec<serde_json::Value> = Vec::new();
    let mut i: usize = 0;
    while i < tasks.len()
        invariant
            i <= tasks.len(),
            values.len() == i,
            forall|k: int| 0 <= k < i ==> doc(#[trigger] values[k]) == task_document(tasks[k]@),
        decreases tasks.len() - i,
    {
        values.push(task_to_value(&tasks[i]));
        i += 1;
    }
    proof {
        assert(docs(values@) =~= tasks_document(task_list(tasks@))->Array_0);
        lemma_round_trip(task_list(tasks@));
    }
    array_value(values)
}

/// The string under a name in a JSON object.
pub fn text_member(v: &serde_json::Value, name: &str) -> (r: Option<String>)
    ensures
        match r {
            Some(s) => member_text(doc(*v), name@) == Some(s@),
            None => member_text(doc(*v), name@) is None,
        },
{
    match object_member(v, name) {
        None => None,
        Some(m) => match string_text(m) {
            None => None,
            Some(s) => Some(s.to_owned()),
        },
    }
}

/// The task that a JSON value stands for, if it stands for one.
pub fn task_from_value(v: &serde_json::Value) -> (r: Option<Task>)
    ensures
        match r {
            Some(t) => document_task(doc(*v)) == Some(t@),
            None => document_task(doc(*v)) is None,
        },
{
    let id = match text_member(v, "id") {
        Some(s) => s,
        None => { return None; },
    };
    let task = match text_member(v, "task") {
        Some(s) => s,
        None => { return None; },
    };
    let time = match text_member(v, "time") {
        Some(s) => s,
        None => { return None; },
    };
    let status = match text_member(v, "status") {
        Some(s) => s,
        None => { return None; },
    };
    Some(Task { id, task, time, status })
}

/// The list of tasks that a JSON value stands for, if it stands for one.
pub fn tasks_from_value(v: &serde_json::Value) -> (r: Option<Vec<Task>>)
    ensures
        match r {
            Some(tasks) => document_tasks(doc(*v)) == Some(task_list(tasks@)),
            None => document_tasks(doc(*v)) is None,
        },
{
    let items = match array_items(v) {
        Some(items) => items,
        None => { return None; },
    };
    let mut tasks: Vec<Task> = Vec::new();
    let mut i: usize = 0;
    while i < items.len()
        invariant
            i <= items.len(),
            tasks.len() == i,
            doc(*v) == Json::Array(docs(items@)),
            forall|k: int|
                0 <= k < i ==> document_task(doc(items[k])) == Some(#[trigger] tasks[k]@),
        decreases items.len() - i,
    {
        match task_from_value(&items[i]) {
            Some(t) => { tasks.push(t); },
            None => {
                assert(docs(items@)[i as int] == doc(items[i as int]));
                return None;
            },
        }
        i += 1;
    }
    proof {
        let found = docs(items@);
        assert forall|k: int| 0 <= k < found.len() implies document_task(#[trigger] found[k])
            == Some(tasks[k]@) by {
            assert(document_task(doc(items[k])) == Some(tasks[k]@));
        }
        assert(found.map_values(|item: Json| document_task(item).unwrap()) =~= task_list(tasks@));
    }
    Some(tasks)
}

/// Reads a list of tasks from its stored text. `None` where the text is no
/// JSON, or is JSON of another shape than an array of task objects.
pub fn decode_tasks(content: &str) -> (r: Option<Vec<Task>>)
    ensures
        match r {
            Some(tasks) => decoded(content@) == Some(task_list(tasks@)),
            None => decoded(content@) is None,
        },
{
    match parse_value(content) {
        Ok(v) => tasks_from_value(&v),
        Err(_) => None,
    }
}

/// Whether two tasks hold the same four texts.
pub fn same_task(a: &Task, b: &Task) -> (r: bool)
    ensures
        r == (a@ == b@),
{
    a.id == b.id && a.task == b.task && a.time == b.time && a.status == b.status
}

/// Whether two lists hold the same tasks in the same order.
pub fn same_tasks(a: &Vec<Task>, b: &Vec<Task>) -> (r: bool)
    ensures
        r == (task_list(a@) == task_list(b@)),
{
    if a.len() != b.len() {
        assert(task_list(a@).len() != task_list(b@).len());
        return false;
    }
    let mut i: usize = 0;
    while i < a.len()
        invariant
            i <= a.len(),
            a.len() == b.len(),
            forall|k: int| 0 <= k < i ==> (#[trigger] a[k])@ == b[k]@,
        decreases a.len() - i,
    {
        if !same_task(&a[i], &b[i]) {
            assert(task_list(a@)[i as int] != task_list(b@)[i as int]);
            return false;
        }
        i += 1;
    }
    assert(task_list(a@) =~= task_list(b@));
    true
}

/// Whether a text reads back as the given list of tasks.
pub fn reads_back(content: &str, tasks: &Vec<Task>) -> (r: bool)
    ensures
        r == (decoded(content@) == Some(task_list(tasks@))),
{
    match decode_tasks(content) {
        Some(read) => same_tasks(&read, tasks),
        None => false,
    }
}

/// The error of an encoding whose text does not read back as the list.
pub open spec fn read_back_failure() -> Seq<char> {
    "the encoded task list does not read back as the list it was made from"@
}

/// What encoding a list returns for each outcome of the printer: the printed
/// text where it reads back as the list, and an error otherwise.
pub fn checked_content(printed: Result<String, serde_json::Error>, tasks: &Vec<Task>) -> (r:
    Result<String, String>)
    ensures
        match printed {
            Ok(s) => if decoded(s@) == Some(task_list(tasks@)) {
                r == Ok::<String, String>(s)
            } else {
                r matches Err(message) && message@ == read_back_failure()
            },
            Err(_) => r is Err,
        },
{
    match printed {
        Ok(s) => if reads_back(s.as_str(), tasks) {
            Ok(s)
        } else {
            Err("the encoded task list does not read back as the list it was made from".to_owned())
        },
        Err(e) => Err(error_text(&e)),
    }
}

/// Writes a list of tasks as the text to store: indented JSON, one object for
/// each task in the order of the list. It succeeds on exactly the lists that
/// can be stored, with the text that the list is printed as, which reads back
/// as the list. Where the text does not read back, the error says so; where
/// the printer fails, the error is the printer's description.
pub fn encode_tasks(tasks: &Vec<Task>) -> (r: Result<String, String>)
    ensures
        r is Ok <==> storable(task_list(tasks@)),
        r matches Ok(s) ==> stores(s@, task_list(tasks@)),
        r matches Err(message) ==> (encoded(task_list(tasks@)) is Some ==> message@
            == read_back_failure()),
{
    let v = tasks_to_value(tasks);
    proof {
        lemma_tasks_document_strings_only(task_list(tasks@));
    }
    checked_content(print_pretty(&v), tasks)
}

} // verus!
