//! Model of the terminal driver's queueing interface.
//!
//! Drawing operations are queued and take no effect until the queue is
//! handed over for execution; the surrounding binary performs each command
//! against the real terminal and flushes. Everything here is pure data
//! manipulation, so the whole queue discipline is verified.

use vstd::prelude::*;

verus! {

/// Terminal dimensions in character cells.
#[derive(Clone, Copy, Debug, PartialEq, Eq, Structural)]
pub struct Size {
    pub height: usize,
    pub width: usize,
}

/// A caret position in viewport space: zero-based column and row.
#[derive(Clone, Copy, Debug, PartialEq, Eq, Structural)]
pub struct Position {
    pub column: usize,
    pub row: usize,
}

/// One queued drawing command, as handed to the terminal driver.
#[derive(Debug, PartialEq)]
pub enum TermCommand {
    MoveCaretTo(Position),
    ClearScreen,
    ClearLine,
    Print(String),
    ShowCaret,
    HideCaret,
}

/// Mathematical model of a drawing command: the printed text is a
/// sequence of characters rather than a `String`.
pub enum ScreenOp {
    MoveCaretTo(Position),
    ClearScreen,
    ClearLine,
    Print(Seq<char>),
    ShowCaret,
    HideCaret,
}

impl vstd::view::View for TermCommand {
    type V = ScreenOp;

    open spec fn view(&self) -> ScreenOp {
        match self {
            TermCommand::MoveCaretTo(p) => ScreenOp::MoveCaretTo(*p),
            TermCommand::ClearScreen => ScreenOp::ClearScreen,
            TermCommand::ClearLine => ScreenOp::ClearLine,
            TermCommand::Print(s) => ScreenOp::Print(s@),
            TermCommand::ShowCaret => ScreenOp::ShowCaret,
            TermCommand::HideCaret => ScreenOp::HideCaret,
        }
    }
}

/// The terminal driver's output queue. Commands accumulate in order and
/// are only observable through `take_commands`, which the surrounding
/// binary uses to perform them and flush.
pub struct Terminal {
    queue: Vec<TermCommand>,
}

impl Terminal {
    /// The queued operations, oldest first, at the model level.
    pub closed spec fn ops(&self) -> Seq<ScreenOp> {
        self.queue@.map_values(|c: TermCommand| c@)
    }

    /// A fresh driver with an empty queue.
    pub fn new() -> (t: Terminal)
        ensures
            t.ops() == Seq::<ScreenOp>::empty(),
    {
        let t = Terminal { queue: Vec::new() };
        proof {
            assert(t.ops() =~= Seq::<ScreenOp>::empty());
        }
        t
    }

    fn queue_command(&mut self, command: TermCommand)
        ensures
            final(self).ops() == old(self).ops().push(command@),
    {
        let ghost c = command;
        self.queue.push(command);
        proof {
            assert(self.ops() =~= old(self).ops().push(c@));
        }
    }

    /// Queue a command that clears the whole screen.
    pub fn clear_screen(&mut self)
        ensures
            final(self).ops() == old(self).ops().push(ScreenOp::ClearScreen),
    {
        self.queue_command(TermCommand::ClearScreen);
    }

    /// Queue a command that clears the caret's current line.
    pub fn clear_line(&mut self)
        ensures
            final(self).ops() == old(self).ops().push(ScreenOp::ClearLine),
    {
        self.queue_command(TermCommand::ClearLine);
    }

    /// Queue a caret move to the given position.
    pub fn move_caret_to(&mut self, position: Position)
        ensures
            final(self).ops() == old(self).ops().push(ScreenOp::MoveCaretTo(position)),
    {
        self.queue_command(TermCommand::MoveCaretTo(position));
    }

    /// Queue a command that makes the caret visible.
    pub fn show_caret(&mut self)
        ensures
            final(self).ops() == old(self).ops().push(ScreenOp::ShowCaret),
    {
        self.queue_command(TermCommand::ShowCaret);
    }

    /// Queue a command that hides the caret.
    pub fn hide_caret(&mut self)
        ensures
            final(self).ops() == old(self).ops().push(ScreenOp::HideCaret),
    {
        self.queue_command(TermCommand::HideCaret);
    }

    /// Queue the given text for printing at the caret.
    pub fn print(&mut self, text: &str)
        ensures
            final(self).ops() == old(self).ops().push(ScreenOp::Print(text@)),
    {
        self.queue_command(TermCommand::Print(text.to_owned()));
    }

    /// Hand the queued commands over for execution, leaving the queue empty.
    pub fn take_commands(&mut self) -> (commands: Vec<TermCommand>)
        ensures
            commands@.map_values(|c: TermCommand| c@) == old(self).ops(),
            final(self).ops() == Seq::<ScreenOp>::empty(),
    {
        let mut taken: Vec<TermCommand> = Vec::new();
        core::mem::swap(&mut taken, &mut self.queue);
        proof {
            assert(self.ops() =~= Seq::<ScreenOp>::empty());
        }
        taken
    }
}

} // verus!
