use vstd::prelude::*;
use vstd::string::*;
use vstd::utf8::encode_utf8;

use crate::json_value::{
    digit_runs_bounded, dump_text, flat_records, Field, FieldKind, json_members, member_at, member_count, members_or_empty, parse_text,
    parsed_members, push_member,
};
use crate::task::{decoded, encoded_fields, lemma_decode_encode, DecodeError, Task};

verus! {

/// The title and flag of each task, in order.
pub open spec fn task_views(ts: Seq<Task>) -> Seq<(Seq<char>, bool)> {
    ts.map_values(|t: Task| t@)
}

/// The stored records of a list of tasks, in order.
pub open spec fn encoded_records(ts: Seq<(Seq<char>, bool)>) -> Seq<Option<Map<Seq<char>, Field>>> {
    ts.map_values(|t: (Seq<char>, bool)| Some(encoded_fields(t)))
}

/// Every record yields a task.
pub open spec fn all_decode(rs: Seq<Option<Map<Seq<char>, Field>>>) -> bool {
    forall|i: int| 0 <= i < rs.len() ==> (#[trigger] decoded(rs[i])) is Some
}

/// The tasks that the records yield, in order.
pub open spec fn decoded_all(rs: Seq<Option<Map<Seq<char>, Field>>>) -> Seq<(Seq<char>, bool)> {
    rs.map_values(|r: Option<Map<Seq<char>, Field>>| decoded(r)->0)
}

/// Why a stored document could not be loaded.
#[derive(Debug, PartialEq, Eq, Structural, Clone, Copy)]
pub enum LoadError {
    /// The text is not JSON.
    Parse,
    /// A record lacks `title` or `completed`.
    MissingField,
}

/// The whole list as a JSON array of records, in order.
pub fn tasks_to_json(tasks: &Vec<Task>) -> (r: json::JsonValue)
    ensures
        json_members(r) == Some(encoded_records(task_views(tasks@))),
{
    let mut doc = json::JsonValue::new_array();
    let mut i: usize = 0;
    while i < tasks.len()
        invariant
            i <= tasks@.len(),
            json_members(doc) == Some(encoded_records(task_views(tasks@.subrange(0, i as int)))),
        decreases tasks@.len() - i,
    {
        let record = tasks[i].to_json();
        push_member(&mut doc, record);
        proof {
            assert(tasks@.subrange(0, i as int + 1) == tasks@.subrange(0, i as int).push(tasks@[i as int]));
            assert(encoded_records(task_views(tasks@.subrange(0, i as int + 1))) =~= encoded_records(
                task_views(tasks@.subrange(0, i as int)),
            ).push(Some(encoded_fields(tasks@[i as int]@))));
        }
        i = i + 1;
    }
    assert(tasks@.subrange(0, tasks@.len() as int) == tasks@);
    doc
}

/// The tasks of a JSON array, in order; a record that does not yield a task
/// fails the whole list. A value that is not an array holds no tasks.
pub fn tasks_from_json(doc: &json::JsonValue) -> (r: Result<Vec<Task>, DecodeError>)
    ensures
        all_decode(members_or_empty(json_members(*doc))) ==> r is Ok && task_views(r->Ok_0@)
            == decoded_all(members_or_empty(json_members(*doc))),
        !all_decode(members_or_empty(json_members(*doc))) ==> r == Err::<Vec<Task>, DecodeError>(
            DecodeError::MissingField,
        ),
{
    let ghost rs = members_or_empty(json_members(*doc));
    let n = member_count(doc);
    let mut tasks: Vec<Task> = Vec::new();
    let mut i: usize = 0;
    while i < n
        invariant
            n == rs.len(),
            rs == members_or_empty(json_members(*doc)),
            i <= n,
            forall|j: int| 0 <= j < i ==> (#[trigger] decoded(rs[j])) is Some,
            task_views(tasks@) == decoded_all(rs.subrange(0, i as int)),
        decreases n - i,
    {
        let record = member_at(doc, i);
        match Task::from_json(record) {
            Ok(t) => {
                tasks.push(t);
                proof {
                    assert(decoded_all(rs.subrange(0, i as int + 1)) =~= decoded_all(
                        rs.subrange(0, i as int),
                    ).push(decoded(rs[i as int])->0));
                    assert(task_views(tasks@) =~= task_views(tasks@.drop_last()).push(
                        tasks@.last()@,
                    ));
                }
            },
            Err(e) => {
                assert(!all_decode(rs)) by {
                    assert(decoded(rs[i as int]) is None);
                }
                return Err(e);
            },
        }
        i = i + 1;
    }
    assert(rs.subrange(0, n as int) == rs);
    Ok(tasks)
}

/// The tasks of a stored document's text: an error where the text is not
/// JSON, or where a record does not yield a task.
pub fn tasks_from_text(text: &str) -> (r: Result<Vec<Task>, LoadError>)
    requires
        digit_runs_bounded(encode_utf8(text@)),
    ensures
        parsed_members(text@) is None ==> r == Err::<Vec<Task>, LoadError>(LoadError::Parse),
        parsed_members(text@) is Some ==> {
            let rs = members_or_empty(parsed_members(text@)->0);
            &&& all_decode(rs) ==> r is Ok && task_views(r->Ok_0@) == decoded_all(rs)
            &&& !all_decode(rs) ==> r == Err::<Vec<Task>, LoadError>(LoadError::MissingField)
        },
{
    match parse_text(text) {
        Ok(doc) => match tasks_from_json(&doc) {
            Ok(tasks) => Ok(tasks),
            Err(_) => Err(LoadError::MissingField),
        },
        Err(_) => Err(LoadError::Parse),
    }
}

/// The text of the document that stores the whole list: parsed, it gives
/// back the record of each task, in order.
pub fn document_text(tasks: &Vec<Task>) -> (r: String)
    ensures
        parsed_members(r@) == Some(Some(encoded_records(task_views(tasks@)))),
        digit_runs_bounded(encode_utf8(r@)),
{
    let doc = tasks_to_json(tasks);
    proof {
        lemma_encoded_records_flat(task_views(tasks@));
    }
    dump_text(&doc)
}

/// The records of a list of tasks form an array of objects whose fields are
/// all strings or booleans.
proof fn lemma_encoded_records_flat(ts: Seq<(Seq<char>, bool)>)
    ensures
        flat_records(Some(encoded_records(ts))),
{
    let rs = encoded_records(ts);
    assert forall|i: int, k: Seq<char>|
        0 <= i < rs.len() && #[trigger] rs[i]->0.contains_key(k) implies rs[i]->0[k].0
        != FieldKind::Other by {
        assert(rs[i] == Some(encoded_fields(ts[i])));
    }
}

/// A stored text as `document_text` writes it for a list of tasks can be
/// handed to `tasks_from_text`, and loads as that list, in order.
pub proof fn lemma_saved_text_loads(ts: Seq<(Seq<char>, bool)>, text: Seq<char>)
    requires
        parsed_members(text) == Some(Some(encoded_records(ts))),
        digit_runs_bounded(encode_utf8(text)),
    ensures
        parsed_members(text) is Some,
        digit_runs_bounded(encode_utf8(text)),
        all_decode(members_or_empty(parsed_members(text)->0)),
        decoded_all(members_or_empty(parsed_members(text)->0)) == ts,
{
    lemma_round_trip(ts);
}

/// Any list of tasks, turned into records and read back, gives the same
/// tasks in the same order.
pub proof fn lemma_round_trip(ts: Seq<(Seq<char>, bool)>)
    ensures
        all_decode(encoded_records(ts)),
        decoded_all(encoded_records(ts)) == ts,
{
    let rs = encoded_records(ts);
    assert forall|i: int| 0 <= i < rs.len() implies (#[trigger] decoded(rs[i])) is Some
        && decoded(rs[i])->0 == ts[i] by {
        lemma_decode_encode(ts[i]);
    }
    assert(decoded_all(rs) =~= ts);
}

} // verus!
