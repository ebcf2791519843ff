use vstd::prelude::*;
use vstd::string::*;

use crate::json_value::{field_text, flag_text, insert_flag, insert_text, json_fields, Field, FieldKind};

verus! {

/// The text shown for a task: a check box followed by the title.
pub open spec fn rendered(title: Seq<char>, completed: bool) -> Seq<char> {
    if completed {
        "[x] "@ + title
    } else {
        "[ ] "@ + title
    }
}

/// A task's title and flag after its completion is flipped.
pub open spec fn toggled(v: (Seq<char>, bool)) -> (Seq<char>, bool) {
    (v.0, !v.1)
}

/// The fields under which a task is stored: its title as a string under
/// `title`, its flag as a boolean under `completed`, and nothing else.
pub open spec fn encoded_fields(v: (Seq<char>, bool)) -> Map<Seq<char>, Field> {
    Map::<Seq<char>, Field>::empty().insert("title"@, (FieldKind::Text, v.0)).insert(
        "completed"@,
        (FieldKind::Flag, flag_text(v.1)),
    )
}

/// The task that a stored record gives, if it has both fields: the title is the
/// text of `title`, and the task is completed exactly when `completed` reads `true`.
pub open spec fn decoded(fields: Option<Map<Seq<char>, Field>>) -> Option<(Seq<char>, bool)> {
    match fields {
        Some(m) => if m.contains_key("title"@) && m.contains_key("completed"@) {
            Some((m["title"@].1, m["completed"@].1 == "true"@))
        } else {
            None
        },
        None => None,
    }
}

/// The task that the texts of a record's two fields give, where both are there.
pub open spec fn decoded_texts(title: Option<Seq<char>>, completed: Option<Seq<char>>) -> Option<(Seq<char>, bool)> {
    match (title, completed) {
        (Some(t), Some(c)) => Some((t, c == "true"@)),
        _ => None,
    }
}

/// A stored record lacks a field that a task needs.
#[derive(Debug, PartialEq, Eq, Structural, Clone, Copy)]
pub enum DecodeError {
    MissingField,
}

/// A to-do entry: a title fixed at creation and a completion flag.
pub struct Task {
    title: String,
    completed: bool,
}

impl View for Task {
    type V = (Seq<char>, bool);

    /// The title and the completion flag.
    closed spec fn view(&self) -> (Seq<char>, bool) {
        (self.title@, self.completed)
    }
}

impl Task {
    /// A new task with the given title, not yet completed.
    pub fn new(title: &str) -> (r: Task)
        ensures
            r@ == (title@, false),
    {
        Task { title: String::from_str(title), completed: false }
    }

    /// A task with the given title and flag.
    pub fn with_state(title: String, completed: bool) -> (r: Task)
        ensures
            r@ == (title@, completed),
    {
        Task { title, completed }
    }

    /// Flips the completion flag; the title is kept.
    pub fn complete(&mut self)
        ensures
            final(self)@ == toggled(old(self)@),
    {
        self.completed = !self.completed;
    }

    pub fn title(&self) -> (r: &str)
        ensures
            r@ == self@.0,
    {
        self.title.as_str()
    }

    pub fn completed(&self) -> (r: bool)
        ensures
            r == self@.1,
    {
        self.completed
    }

    /// A new task whose title is a typed line without its final newline,
    /// if it ends with one; nothing else is trimmed.
    pub fn from_line(line: &str) -> (r: Task)
        ensures
            line@.len() > 0 && line@.last() == '\n' ==> r@ == (line@.drop_last(), false),
            !(line@.len() > 0 && line@.last() == '\n') ==> r@ == (line@, false),
    {
        let n = line.unicode_len();
        if n > 0 && line.get_char(n - 1) == '\n' {
            Task::new(line.substring_char(0, n - 1))
        } else {
            Task::new(line)
        }
    }

    /// The task as one line of text: `[x] title` or `[ ] title`.
    pub fn render(&self) -> (r: String)
        ensures
            r@ == rendered(self@.0, self@.1),
    {
        let mark = if self.completed {
            String::from_str("[x] ")
        } else {
            String::from_str("[ ] ")
        };
        proof {
            reveal_strlit("[x] ");
            reveal_strlit("[ ] ");
        }
        mark.concat(self.title.as_str())
    }

    /// The task built from the texts of a record's `title` and `completed`
    /// fields; a missing field is an error.
    pub fn from_fields(title: Option<String>, completed: Option<String>) -> (r: Result<Task, DecodeError>)
        ensures
            match decoded_texts(
                match title { Some(t) => Some(t@), None => None },
                match completed { Some(c) => Some(c@), None => None },
            ) {
                Some(v) => r is Ok && r->Ok_0@ == v,
                None => r == Err::<Task, DecodeError>(DecodeError::MissingField),
            },
    {
        match (title, completed) {
            (Some(t), Some(c)) => {
                let yes = String::from_str("true");
                proof {
                    reveal_strlit("true");
                }
                let done = c == yes;
                Ok(Task { title: t, completed: done })
            },
            _ => Err(DecodeError::MissingField),
        }
    }

    /// The task stored in a JSON record; a record that is not an object, or
    /// lacks `title` or `completed`, is an error.
    pub fn from_json(task: json::JsonValue) -> (r: Result<Task, DecodeError>)
        ensures
            match decoded(json_fields(task)) {
                Some(v) => r is Ok && r->Ok_0@ == v,
                None => r == Err::<Task, DecodeError>(DecodeError::MissingField),
            },
    {
        if task.has_key("title") && task.has_key("completed") {
            let title = field_text(&task, "title");
            let completed = field_text(&task, "completed");
            Task::from_fields(Some(title), Some(completed))
        } else {
            Task::from_fields(None, None)
        }
    }

    /// The task as a JSON record with fields `title` and `completed`.
    pub fn to_json(&self) -> (r: json::JsonValue)
        ensures
            json_fields(r) == Some(encoded_fields(self@)),
    {
        let mut v = json::JsonValue::new_object();
        insert_text(&mut v, "title", self.title.clone());
        insert_flag(&mut v, "completed", self.completed);
        v
    }

    /// A copy of the task.
    pub fn duplicate(&self) -> (r: Task)
        ensures
            r@ == self@,
    {
        Task { title: self.title.clone(), completed: self.completed }
    }
}

impl Clone for Task {
    fn clone(&self) -> (r: Task)
        ensures
            r@ == self@,
    {
        self.duplicate()
    }
}

/// A task read back from its stored record is the task itself.
pub proof fn lemma_decode_encode(t: (Seq<char>, bool))
    ensures
        decoded(Some(encoded_fields(t))) == Some(t),
{
    reveal_strlit("true");
    reveal_strlit("false");
    reveal_strlit("title");
    reveal_strlit("completed");
    assert("title"@.len() != "completed"@.len());
    assert("true"@.len() != "false"@.len());
}

/// Flipping the flag twice gives the task back.
pub proof fn lemma_complete_twice(t: (Seq<char>, bool))
    ensures
        toggled(toggled(t)) == t,
{
}

} // verus!
