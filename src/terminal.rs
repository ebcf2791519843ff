use vstd::prelude::*;
use vstd::string::*;

use crate::task::{rendered, Task};

verus! {

/// How the terminal takes input: raw single keys, or buffered lines.
#[derive(Debug, PartialEq, Eq, Structural, Clone, Copy)]
pub enum TerminalMode {
    Raw,
    Classic,
}

/// A list position or a row does not fit the terminal's coordinate type.
#[derive(Debug, PartialEq, Eq, Structural, Clone, Copy)]
pub enum ConversionError {
    OutOfRange,
}

/// A position in the list as a terminal row index.
pub fn to_row(i: usize) -> (r: Result<u16, ConversionError>)
    ensures
        i <= u16::MAX ==> r == Ok::<u16, ConversionError>(i as u16),
        i > u16::MAX ==> r == Err::<u16, ConversionError>(ConversionError::OutOfRange),
{
    if i <= 65535 {
        Ok(i as u16)
    } else {
        Err(ConversionError::OutOfRange)
    }
}

/// The mode left for the other one.
pub open spec fn switched(m: TerminalMode) -> TerminalMode {
    match m {
        TerminalMode::Raw => TerminalMode::Classic,
        TerminalMode::Classic => TerminalMode::Raw,
    }
}

/// `n` copies of a character.
pub open spec fn repeated(c: char, n: nat) -> Seq<char> {
    Seq::new(n, |_i: int| c)
}

/// The marker in front of a task row: `> ` on the selected row, two spaces
/// elsewhere.
pub open spec fn row_marker(index: u16, selected: u16) -> Seq<char> {
    if index == selected {
        "> "@
    } else {
        "  "@
    }
}

/// The application's name, shown on the first row.
pub open spec fn header_text() -> Seq<char> {
    "todoRust"@
}

/// The lines of the help block, before its closing separator.
pub open spec fn help_text() -> Seq<Seq<char>> {
    seq![
        ""@,
        "Bienvenu dans todoRust, une simple todo-list en Rust"@,
        ""@,
        "\t-Déplacez vous avec les flèches du clavier"@,
        "\t-Complétez une tâche avec la touche 'Entrée'"@,
        "\t-Ajoutez une tâche avec la touche 'a'"@,
        "\t-Supprimez une tâche avec la touche 'd'"@,
        "\t-Affichez l'aide avec la touche 'h'"@,
        "\t-Quittez avec la touche 'q'"@,
        ""@,
    ]
}

/// The text shown above the line where a new task's title is typed.
pub open spec fn prompt_text() -> Seq<char> {
    "Nouvelle tâche :"@
}

/// The state of a terminal session: its input mode and the next free row.
pub struct Terminal {
    offset: u16,
    mode: TerminalMode,
}

impl Terminal {
    /// The next free row.
    pub closed spec fn spec_offset(&self) -> u16 {
        self.offset
    }

    /// The input mode.
    pub closed spec fn spec_mode(&self) -> TerminalMode {
        self.mode
    }

    /// A session at the top of the screen, in buffered mode.
    pub fn new() -> (r: Terminal)
        ensures
            r.spec_offset() == 0,
            r.spec_mode() == TerminalMode::Classic,
    {
        Terminal { offset: 0, mode: TerminalMode::Classic }
    }

    pub fn offset(&self) -> (r: u16)
        ensures
            r == self.spec_offset(),
    {
        self.offset
    }

    pub fn mode(&self) -> (r: TerminalMode)
        ensures
            r == self.spec_mode(),
    {
        self.mode
    }

    /// Moves to the other input mode and returns it; the caller turns raw
    /// input on when this returns `Raw`, and off when it returns `Classic`.
    pub fn switch_mode(&mut self) -> (r: TerminalMode)
        ensures
            final(self).spec_mode() == switched(old(self).spec_mode()),
            final(self).spec_offset() == old(self).spec_offset(),
            r == final(self).spec_mode(),
    {
        self.mode = match self.mode {
            TerminalMode::Raw => TerminalMode::Classic,
            TerminalMode::Classic => TerminalMode::Raw,
        };
        self.mode
    }

    /// Back to the top row, after the screen is erased.
    pub fn clear(&mut self)
        ensures
            final(self).spec_offset() == 0,
            final(self).spec_mode() == old(self).spec_mode(),
    {
        self.offset = 0;
    }

    /// Takes the next free row: returns it and moves below it. The last
    /// row of the coordinate type cannot be passed.
    pub fn take_row(&mut self) -> (r: Result<u16, ConversionError>)
        ensures
            final(self).spec_mode() == old(self).spec_mode(),
            old(self).spec_offset() < u16::MAX ==> r == Ok::<u16, ConversionError>(
                old(self).spec_offset(),
            ) && final(self).spec_offset() == old(self).spec_offset() + 1,
            old(self).spec_offset() == u16::MAX ==> r == Err::<u16, ConversionError>(
                ConversionError::OutOfRange,
            ) && final(self).spec_offset() == old(self).spec_offset(),
    {
        if self.offset < 65535 {
            let row = self.offset;
            self.offset = self.offset + 1;
            Ok(row)
        } else {
            Err(ConversionError::OutOfRange)
        }
    }

    /// A separator line as wide as the terminal, on the next free row.
    pub fn print_sep(&mut self, width: u16) -> (r: Result<(u16, String), ConversionError>)
        ensures
            final(self).spec_mode() == old(self).spec_mode(),
            old(self).spec_offset() < u16::MAX ==> r is Ok && r->Ok_0.0 == old(self).spec_offset()
                && r->Ok_0.1@ == repeated('=', width as nat) && final(self).spec_offset()
                == old(self).spec_offset() + 1,
            old(self).spec_offset() == u16::MAX ==> r is Err,
    {
        let row = self.take_row()?;
        Ok((row, separator(width)))
    }

    /// The application's name on the next free row, then a separator.
    pub fn print_app(&mut self, width: u16) -> (r: Result<Vec<(u16, String)>, ConversionError>)
        ensures
            final(self).spec_mode() == old(self).spec_mode(),
            old(self).spec_offset() + 2 <= u16::MAX ==> r is Ok && r->Ok_0@.len() == 2
                && r->Ok_0@[0].0 == old(self).spec_offset() && r->Ok_0@[0].1@ == header_text()
                && r->Ok_0@[1].0 == old(self).spec_offset() + 1 && r->Ok_0@[1].1@ == repeated(
                '=',
                width as nat,
            ) && final(self).spec_offset() == old(self).spec_offset() + 2,
            old(self).spec_offset() + 2 > u16::MAX ==> r is Err,
    {
        let mut lines: Vec<(u16, String)> = Vec::new();
        let row = self.take_row()?;
        lines.push((row, String::from_str("todoRust")));
        let sep = self.print_sep(width)?;
        lines.push(sep);
        Ok(lines)
    }

    /// The help block from the next free row on, closed by a separator.
    pub fn print_help(&mut self, width: u16) -> (r: Result<Vec<(u16, String)>, ConversionError>)
        ensures
            final(self).spec_mode() == old(self).spec_mode(),
            old(self).spec_offset() + help_text().len() + 1 <= u16::MAX ==> {
                &&& r is Ok
                &&& r->Ok_0@.len() == help_text().len() + 1
                &&& forall|i: int|
                    0 <= i < help_text().len() ==> (#[trigger] r->Ok_0@[i]).0 == old(
                        self,
                    ).spec_offset() + i && r->Ok_0@[i].1@ == help_text()[i]
                &&& r->Ok_0@[help_text().len() as int].0 == old(self).spec_offset()
                    + help_text().len()
                &&& r->Ok_0@[help_text().len() as int].1@ == repeated('=', width as nat)
                &&& final(self).spec_offset() == old(self).spec_offset() + help_text().len() + 1
            },
            old(self).spec_offset() + help_text().len() + 1 > u16::MAX ==> r is Err,
    {
        let mut texts: Vec<String> = Vec::new();
        texts.push(String::from_str(""));
        texts.push(String::from_str("Bienvenu dans todoRust, une simple todo-list en Rust"));
        texts.push(String::from_str(""));
        texts.push(String::from_str("\t-Déplacez vous avec les flèches du clavier"));
        texts.push(String::from_str("\t-Complétez une tâche avec la touche 'Entrée'"));
        texts.push(String::from_str("\t-Ajoutez une tâche avec la touche 'a'"));
        texts.push(String::from_str("\t-Supprimez une tâche avec la touche 'd'"));
        texts.push(String::from_str("\t-Affichez l'aide avec la touche 'h'"));
        texts.push(String::from_str("\t-Quittez avec la touche 'q'"));
        texts.push(String::from_str(""));
        let ghost start = self.offset;
        if self.offset > 65535 - 11 {
            return Err(ConversionError::OutOfRange);
        }
        let mut lines: Vec<(u16, String)> = Vec::new();
        let mut i: usize = 0;
        while i < texts.len()
            invariant
                texts@.len() == help_text().len(),
                forall|j: int| 0 <= j < texts@.len() ==> (#[trigger] texts@[j])@ == help_text()[j],
                i <= texts@.len(),
                start + 11 <= u16::MAX,
                self.offset == start + i,
                self.mode == old(self).mode,
                lines@.len() == i,
                forall|j: int|
                    0 <= j < i ==> (#[trigger] lines@[j]).0 == start + j && lines@[j].1@
                        == help_text()[j],
            decreases texts@.len() - i,
        {
            let row = self.take_row()?;
            lines.push((row, texts[i].clone()));
            i = i + 1;
        }
        let sep = self.print_sep(width)?;
        lines.push(sep);
        Ok(lines)
    }

    /// The rows used to ask for a new task: the prompt on the next free
    /// row, and the row below it for the typed title. The next free row
    /// does not move.
    pub fn prompt_rows(&self) -> (r: Result<(u16, u16), ConversionError>)
        ensures
            self.spec_offset() < u16::MAX ==> r == Ok::<(u16, u16), ConversionError>(
                (self.spec_offset(), (self.spec_offset() + 1) as u16),
            ),
            self.spec_offset() == u16::MAX ==> r is Err,
    {
        if self.offset < 65535 {
            Ok((self.offset, self.offset + 1))
        } else {
            Err(ConversionError::OutOfRange)
        }
    }

    /// One task row on the next free row: the selection marker, then the
    /// task's text.
    pub fn print_task(&mut self, task: &Task, index: u16, selected: u16) -> (r: Result<
        (u16, String),
        ConversionError,
    >)
        ensures
            final(self).spec_mode() == old(self).spec_mode(),
            old(self).spec_offset() < u16::MAX ==> r is Ok && r->Ok_0.0 == old(self).spec_offset()
                && r->Ok_0.1@ == row_marker(index, selected) + rendered(task@.0, task@.1)
                && final(self).spec_offset() == old(self).spec_offset() + 1,
            old(self).spec_offset() == u16::MAX ==> r is Err,
    {
        let row = self.take_row()?;
        let marker = if index == selected {
            String::from_str("> ")
        } else {
            String::from_str("  ")
        };
        proof {
            reveal_strlit("> ");
            reveal_strlit("  ");
        }
        let text = task.render();
        Ok((row, marker.concat(text.as_str())))
    }
}

/// The text shown above the line where a new task's title is typed.
pub fn prompt() -> (r: String)
    ensures
        r@ == prompt_text(),
{
    String::from_str("Nouvelle tâche :")
}

/// A line of `width` copies of `=`.
pub fn separator(width: u16) -> (r: String)
    ensures
        r@ == repeated('=', width as nat),
{
    let mut line = String::new();
    let mut i: u16 = 0;
    while i < width
        invariant
            i <= width,
            line@ == repeated('=', i as nat),
        decreases width - i,
    {
        line.append("=");
        proof {
            reveal_strlit("=");
        }
        assert(line@ =~= repeated('=', (i + 1) as nat));
        i = i + 1;
    }
    line
}

} // verus!
