use todorust::controller::{Action, App, Key};
use todorust::store::{document_text, tasks_from_text};
use todorust::task::Task;

fn three() -> App {
    App::new(vec![Task::new("a"), Task::new("b"), Task::new("c")])
}

#[test]
fn navigation_stays_in_bounds() {
    let mut app = three();
    assert_eq!(app.handle_key(Key::Up), Action::Nothing);
    assert_eq!(app.selected(), 0);
    for _ in 0..5 {
        app.handle_key(Key::Down);
    }
    assert_eq!(app.selected(), 2);
    app.handle_key(Key::Up);
    assert_eq!(app.selected(), 1);
}

#[test]
fn navigation_on_empty_list_stays_at_zero() {
    let mut app = App::new(vec![]);
    app.handle_key(Key::Down);
    app.handle_key(Key::Up);
    assert_eq!(app.selected(), 0);
    assert_eq!(app.handle_key(Key::Enter), Action::Nothing);
    assert_eq!(app.handle_key(Key::Char('d')), Action::Nothing);
}

#[test]
fn add_moves_selection_to_new_task() {
    let mut app = three();
    assert_eq!(app.handle_key(Key::Char('a')), Action::AskTitle);
    app.add_task(Task::new("X"));
    assert_eq!(app.tasks().len(), 4);
    assert_eq!(app.tasks()[3].title(), "X");
    assert_eq!(app.selected(), 3);
}

#[test]
fn enter_toggles_selected_task() {
    let mut app = three();
    app.handle_key(Key::Down);
    assert_eq!(app.handle_key(Key::Enter), Action::Persist);
    assert!(app.tasks()[1].completed());
    assert!(!app.tasks()[0].completed());
}

#[test]
fn delete_last_keeps_cursor_on_list() {
    let mut app = three();
    app.handle_key(Key::Down);
    app.handle_key(Key::Down);
    assert_eq!(app.handle_key(Key::Char('d')), Action::Persist);
    assert_eq!(app.tasks().len(), 2);
    assert_eq!(app.selected(), 1);
    assert_eq!(app.tasks()[1].title(), "b");
}

#[test]
fn delete_middle_keeps_cursor() {
    let mut app = three();
    app.handle_key(Key::Down);
    app.handle_key(Key::Char('d'));
    assert_eq!(app.selected(), 1);
    assert_eq!(app.tasks()[1].title(), "c");
}

#[test]
fn help_quit_and_other_keys() {
    let mut app = three();
    assert!(!app.help_visible());
    assert_eq!(app.handle_key(Key::Char('h')), Action::Nothing);
    assert!(app.help_visible());
    assert_eq!(app.handle_key(Key::Char('z')), Action::Nothing);
    assert_eq!(app.handle_key(Key::Other), Action::Nothing);
    assert_eq!(app.handle_key(Key::Char('q')), Action::Quit);
    assert_eq!(app.tasks().len(), 3);
}

#[test]
fn enter_then_quit_persists_completed_task() {
    let tasks = tasks_from_text("[{\"title\":\"A\",\"completed\":false}]").unwrap();
    let mut app = App::new(tasks);
    assert_eq!(app.handle_key(Key::Enter), Action::Persist);
    let stored = document_text(app.tasks());
    assert_eq!(app.handle_key(Key::Char('q')), Action::Quit);
    assert_eq!(stored, "[{\"title\":\"A\",\"completed\":true}]");
}
