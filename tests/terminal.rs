use todorust::task::Task;
use todorust::terminal::{prompt, separator, to_row, ConversionError, Terminal, TerminalMode};

#[test]
fn new_terminal() {
    let term = Terminal::new();

    assert!(term.offset() == 0)
}

#[test]
fn switch_mode_goes_back_and_forth() {
    let mut term = Terminal::new();
    assert_eq!(term.switch_mode(), TerminalMode::Raw);
    assert_eq!(term.mode(), TerminalMode::Raw);
    assert_eq!(term.switch_mode(), TerminalMode::Classic);
    assert_eq!(term.mode(), TerminalMode::Classic);
}

#[test]
fn print_sep_takes_one_row() {
    let mut term = Terminal::new();
    let (row, line) = term.print_sep(5).unwrap();
    assert_eq!(row, 0);
    assert_eq!(line, "=====");
    assert_eq!(term.offset(), 1);
}

#[test]
fn print_app_takes_two_rows() {
    let mut term = Terminal::new();
    let lines = term.print_app(3).unwrap();
    assert_eq!(lines[0], (0, String::from("todoRust")));
    assert_eq!(lines[1], (1, String::from("===")));
    assert_eq!(term.offset(), 2);
}

#[test]
fn print_help_takes_eleven_rows() {
    let mut term = Terminal::new();
    let lines = term.print_help(2).unwrap();
    assert_eq!(lines.len(), 11);
    assert_eq!(lines[1].1, "Bienvenu dans todoRust, une simple todo-list en Rust");
    assert_eq!(lines[8].1, "\t-Quittez avec la touche 'q'");
    assert_eq!(lines[10], (10, String::from("==")));
    assert_eq!(term.offset(), 11);
}

#[test]
fn print_task_marks_selected_row() {
    let mut term = Terminal::new();
    let task = Task::new("Bonjour");
    let (row, line) = term.print_task(&task, 0, 1).unwrap();
    assert_eq!(row, 0);
    assert_eq!(line, "  [ ] Bonjour");
    let (row, line) = term.print_task(&task, 1, 1).unwrap();
    assert_eq!(row, 1);
    assert_eq!(line, "> [ ] Bonjour");
    assert_eq!(term.offset(), 2);
}

#[test]
fn clear_resets_offset() {
    let mut term = Terminal::new();
    term.print_app(4).unwrap();
    term.clear();
    assert_eq!(term.offset(), 0);
}

#[test]
fn prompt_uses_next_two_rows() {
    let mut term = Terminal::new();
    term.print_app(1).unwrap();
    assert_eq!(term.prompt_rows(), Ok((2, 3)));
    assert_eq!(term.offset(), 2);
    assert_eq!(prompt(), "Nouvelle tâche :");
}

#[test]
fn separator_of_zero_width_is_empty() {
    assert_eq!(separator(0), "");
}

#[test]
fn row_conversion_bounds() {
    assert_eq!(to_row(0), Ok(0));
    assert_eq!(to_row(65535), Ok(65535));
    assert_eq!(to_row(65536), Err(ConversionError::OutOfRange));
}

#[test]
fn rows_run_out_at_last_coordinate() {
    let mut term = Terminal::new();
    for _ in 0..65535u32 {
        term.take_row().unwrap();
    }
    assert_eq!(term.offset(), 65535);
    assert_eq!(term.take_row(), Err(ConversionError::OutOfRange));
    assert!(term.print_sep(1).is_err());
    assert_eq!(term.offset(), 65535);
}
