use vstd::prelude::*;

use crate::store::task_views;
use crate::task::{toggled, Task};

verus! {

/// A key press, as far as the task list reacts to it.
#[derive(Debug, PartialEq, Eq, Structural, Clone, Copy)]
pub enum Key {
    Up,
    Down,
    Enter,
    Char(char),
    Other,
}

/// What the caller has to do after a key was handled.
#[derive(Debug, PartialEq, Eq, Structural, Clone, Copy)]
pub enum Action {
    /// Nothing beyond drawing the screen again.
    Nothing,
    /// Write the whole list to the store.
    Persist,
    /// Read a title for a new task, then hand it to `add_task`.
    AskTitle,
    /// Leave the loop.
    Quit,
}

/// The cursor is on a task, or at 0 when there is none.
pub open spec fn cursor_valid(len: nat, selected: nat) -> bool {
    if len == 0 {
        selected == 0
    } else {
        selected < len
    }
}

/// Where the cursor goes on a key among `len` tasks: up and down by one
/// while a task is there; any other key leaves it.
pub open spec fn navigated(len: nat, selected: nat, key: Key) -> nat {
    match key {
        Key::Up => if selected > 0 {
            (selected - 1) as nat
        } else {
            selected
        },
        Key::Down => if selected + 1 < len {
            selected + 1
        } else {
            selected
        },
        _ => selected,
    }
}

/// Where the cursor is after a run of key presses that leave the list as it is.
pub open spec fn navigated_all(len: nat, selected: nat, keys: Seq<Key>) -> nat
    decreases keys.len(),
{
    if keys.len() == 0 {
        selected
    } else {
        navigated_all(len, navigated(len, selected, keys[0]), keys.drop_first())
    }
}

/// Where the cursor goes after the selected task is removed from a list
/// that then holds `len` tasks: it stays, unless it is past the end.
pub open spec fn clamped(len: nat, selected: nat) -> nat {
    if selected < len {
        selected
    } else if len == 0 {
        0
    } else {
        (len - 1) as nat
    }
}

/// The task list of a session, with its cursor and help flag.
pub struct App {
    tasks: Vec<Task>,
    selected: usize,
    help: bool,
}

impl App {
    /// The title and flag of each task, in order.
    pub closed spec fn spec_tasks(&self) -> Seq<(Seq<char>, bool)> {
        task_views(self.tasks@)
    }

    /// The cursor.
    pub closed spec fn spec_selected(&self) -> nat {
        self.selected as nat
    }

    /// Whether the help block is shown.
    pub closed spec fn spec_help(&self) -> bool {
        self.help
    }

    /// The cursor is on a task, or at 0 when there is none.
    pub open spec fn wf(&self) -> bool {
        cursor_valid(self.spec_tasks().len(), self.spec_selected())
    }

    /// A session over loaded tasks, with the cursor on the first and no help.
    pub fn new(tasks: Vec<Task>) -> (r: App)
        ensures
            r.wf(),
            r.spec_tasks() == task_views(tasks@),
            r.spec_selected() == 0,
            !r.spec_help(),
    {
        App { tasks, selected: 0, help: false }
    }

    pub fn tasks(&self) -> (r: &Vec<Task>)
        ensures
            task_views(r@) == self.spec_tasks(),
    {
        &self.tasks
    }

    pub fn selected(&self) -> (r: usize)
        ensures
            r == self.spec_selected(),
    {
        self.selected
    }

    pub fn help_visible(&self) -> (r: bool)
        ensures
            r == self.spec_help(),
    {
        self.help
    }

    /// Handles one key press. Up and Down move the cursor within the list;
    /// Enter flips the selected task; `d` removes it and keeps the cursor on
    /// the list; `h` shows or hides help; `a` asks for a title; `q` quits.
    /// Enter and `d` on an empty list do nothing.
    pub fn handle_key(&mut self, key: Key) -> (r: Action)
        requires
            old(self).wf(),
        ensures
            final(self).wf(),
            ({
                let len = old(self).spec_tasks().len();
                let sel = old(self).spec_selected();
                let ts = old(self).spec_tasks();
                match key {
                    Key::Up | Key::Down => r == Action::Nothing && final(self).spec_tasks() == ts
                        && final(self).spec_selected() == navigated(len, sel, key)
                        && final(self).spec_help() == old(self).spec_help(),
                    Key::Enter => if sel < len {
                        r == Action::Persist && final(self).spec_tasks() == ts.update(
                            sel as int,
                            toggled(ts[sel as int]),
                        ) && final(self).spec_selected() == sel && final(self).spec_help()
                            == old(self).spec_help()
                    } else {
                        r == Action::Nothing && final(self).spec_tasks() == ts
                            && final(self).spec_selected() == sel && final(self).spec_help()
                            == old(self).spec_help()
                    },
                    Key::Char('d') => if sel < len {
                        r == Action::Persist && final(self).spec_tasks() == ts.remove(sel as int)
                            && final(self).spec_selected() == clamped((len - 1) as nat, sel)
                            && final(self).spec_help() == old(self).spec_help()
                    } else {
                        r == Action::Nothing && final(self).spec_tasks() == ts
                            && final(self).spec_selected() == sel && final(self).spec_help()
                            == old(self).spec_help()
                    },
                    Key::Char('h') => r == Action::Nothing && final(self).spec_tasks() == ts
                        && final(self).spec_selected() == sel && final(self).spec_help()
                        == !old(self).spec_help(),
                    Key::Char('a') => r == Action::AskTitle && final(self).spec_tasks() == ts
                        && final(self).spec_selected() == sel && final(self).spec_help()
                        == old(self).spec_help(),
                    Key::Char('q') => r == Action::Quit && final(self).spec_tasks() == ts
                        && final(self).spec_selected() == sel && final(self).spec_help()
                        == old(self).spec_help(),
                    _ => r == Action::Nothing && final(self).spec_tasks() == ts
                        && final(self).spec_selected() == sel && final(self).spec_help()
                        == old(self).spec_help(),
                }
            }),
    {
        match key {
            Key::Up => {
                if self.selected > 0 {
                    self.selected = self.selected - 1;
                }
                Action::Nothing
            },
            Key::Down => {
                if self.selected < self.tasks.len() && self.selected + 1 < self.tasks.len() {
                    self.selected = self.selected + 1;
                }
                Action::Nothing
            },
            Key::Enter => {
                if self.selected < self.tasks.len() {
                    let ghost before = self.tasks@;
                    let mut t = self.tasks[self.selected].duplicate();
                    t.complete();
                    self.tasks.set(self.selected, t);
                    assert(task_views(self.tasks@) =~= task_views(before).update(
                        self.selected as int,
                        toggled(before[self.selected as int]@),
                    ));
                    Action::Persist
                } else {
                    Action::Nothing
                }
            },
            Key::Char('d') => {
                if self.selected < self.tasks.len() {
                    let ghost before = self.tasks@;
                    let _ = self.tasks.remove(self.selected);
                    assert(task_views(self.tasks@) =~= task_views(before).remove(
                        self.selected as int,
                    ));
                    if self.selected >= self.tasks.len() && self.tasks.len() > 0 {
                        self.selected = self.tasks.len() - 1;
                    } else if self.tasks.len() == 0 {
                        self.selected = 0;
                    }
                    Action::Persist
                } else {
                    Action::Nothing
                }
            },
            Key::Char('h') => {
                self.help = !self.help;
                Action::Nothing
            },
            Key::Char('a') => Action::AskTitle,
            Key::Char('q') => Action::Quit,
            _ => Action::Nothing,
        }
    }

    /// Appends a new task at the end of the list and puts the cursor on it.
    pub fn add_task(&mut self, task: Task)
        requires
            old(self).wf(),
            old(self).spec_tasks().len() < usize::MAX,
        ensures
            final(self).wf(),
            final(self).spec_tasks() == old(self).spec_tasks().push(task@),
            final(self).spec_selected() == old(self).spec_tasks().len(),
            final(self).spec_help() == old(self).spec_help(),
    {
        let ghost before = self.tasks@;
        let ghost v = task@;
        self.tasks.push(task);
        assert(task_views(self.tasks@) =~= task_views(before).push(v));
        self.selected = self.tasks.len() - 1;
    }
}

/// Up and Down presses, in any number and order, keep a cursor that starts
/// on a task on a task.
pub proof fn lemma_navigation_in_bounds(len: nat, selected: nat, keys: Seq<Key>)
    requires
        selected < len,
    ensures
        navigated_all(len, selected, keys) < len,
    decreases keys.len(),
{
    if keys.len() > 0 {
        lemma_navigation_in_bounds(len, navigated(len, selected, keys[0]), keys.drop_first());
    }
}

} // verus!
