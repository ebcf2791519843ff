use json::JsonValue;
use todorust::task::{DecodeError, Task};

#[test]
fn new_task() {
    let task = Task::new("Salut");

    assert_eq!(task.title(), "Salut");
    assert_eq!(task.completed(), false)
}

#[test]
fn build_task_from_json() {
    let mut json_task = JsonValue::new_object();
    json_task.insert("title", "Salut").unwrap();
    json_task.insert("completed", true).unwrap();

    let task = Task::from_json(json_task).unwrap();

    assert_eq!(task.completed(), true);
    assert_eq!(task.title(), "Salut");
}

#[test]
fn build_task_from_json_fail() {
    let mut json_task = JsonValue::new_object();
    json_task.insert("title", "Salut").unwrap();

    let task = Task::from_json(json_task);

    assert!(task.is_err())
}

#[test]
fn task_print_task() {
    let mut task = Task::new("Print task");
    assert_eq!(task.render(), "[ ] Print task");
    task.complete();
    assert_eq!(task.render(), "[x] Print task");
}

#[test]
fn complete_task() {
    let mut task = Task::new("Print task");
    task.complete();

    assert!(task.completed())
}

#[test]
fn render_buy_milk_before_and_after_toggle() {
    let mut task = Task::new("Buy milk");
    assert_eq!(task.render(), "[ ] Buy milk");
    task.complete();
    assert_eq!(task.render(), "[x] Buy milk");
}

#[test]
fn toggle_twice_restores_task() {
    let mut task = Task::with_state(String::from("Read"), true);
    task.complete();
    assert!(!task.completed());
    task.complete();
    assert!(task.completed());
    assert_eq!(task.title(), "Read");
}

#[test]
fn empty_title_is_allowed() {
    let task = Task::new("");
    assert_eq!(task.render(), "[ ] ");
}

#[test]
fn decode_missing_title_is_error() {
    let mut json_task = JsonValue::new_object();
    json_task.insert("completed", false).unwrap();
    assert_eq!(Task::from_json(json_task).err(), Some(DecodeError::MissingField));
}

#[test]
fn decode_non_object_is_error() {
    let value = JsonValue::new_array();
    assert_eq!(Task::from_json(value).err(), Some(DecodeError::MissingField));
}

#[test]
fn from_fields_reads_completed_text() {
    let done = Task::from_fields(Some(String::from("A")), Some(String::from("true"))).unwrap();
    assert!(done.completed());
    assert_eq!(done.title(), "A");
    let open = Task::from_fields(Some(String::from("B")), Some(String::from("false"))).unwrap();
    assert!(!open.completed());
    let missing = Task::from_fields(Some(String::from("C")), None);
    assert_eq!(missing.err(), Some(DecodeError::MissingField));
    let missing_title = Task::from_fields(None, Some(String::from("true")));
    assert_eq!(missing_title.err(), Some(DecodeError::MissingField));
}

#[test]
fn to_json_then_from_json_keeps_task() {
    let mut task = Task::new("Water plants");
    task.complete();
    let record = task.to_json();
    assert_eq!(record["title"].to_string(), "Water plants");
    assert_eq!(record["completed"].to_string(), "true");
    let back = Task::from_json(record).unwrap();
    assert_eq!(back.title(), "Water plants");
    assert!(back.completed());
}

#[test]
fn clone_keeps_task() {
    let task = Task::with_state(String::from("Copy"), true);
    let copy = task.clone();
    assert_eq!(copy.title(), "Copy");
    assert!(copy.completed());
}

#[test]
fn record_holds_string_title_and_boolean_flag() {
    let task = Task::with_state(String::from("true"), false);
    let record = task.to_json();
    assert!(record["title"].is_string());
    assert!(record["completed"].is_boolean());
    assert_eq!(record.len(), 2);
}

#[test]
fn typed_line_loses_only_final_newline() {
    assert_eq!(Task::from_line("Bonjour\n").title(), "Bonjour");
    assert_eq!(Task::from_line("Bonjour").title(), "Bonjour");
    assert_eq!(Task::from_line(" a \r\n").title(), " a \r");
    assert_eq!(Task::from_line("\n").title(), "");
    assert!(!Task::from_line("x\n").completed());
}

#[test]
fn string_true_counts_as_completed() {
    let mut json_task = JsonValue::new_object();
    json_task.insert("title", "S").unwrap();
    json_task.insert("completed", "true").unwrap();
    assert!(Task::from_json(json_task).unwrap().completed());
}
