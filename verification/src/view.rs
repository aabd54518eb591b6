//! Viewport renderer: owns the line buffer and the redraw flag, and
//! computes what each visible row displays.
//!
//! Drawing goes through the [`Terminal`] queue: for each visible row the
//! renderer queues a caret move, a line clear, and the row's text. A row
//! shows the corresponding buffer line truncated to the viewport width,
//! or a centered welcome banner when the buffer is empty, or a `~` marker.

use vstd::prelude::*;
use vstd::string::StrSliceExecFns;
use vstd::string::StringExecFns;
use vstd::view::View as _;

use crate::terminal::{Position, ScreenOp, Size, Terminal};

verus! {

/// The in-memory text: an ordered sequence of lines, empty by default.
pub struct Buffer {
    pub lines: Vec<String>,
}

impl Buffer {
    /// An empty buffer.
    pub fn new() -> (b: Buffer)
        ensures
            b.lines@.len() == 0,
    {
        Buffer { lines: Vec::new() }
    }

    /// Whether the buffer holds no lines at all.
    pub fn is_empty(&self) -> (r: bool)
        ensures
            r == (self.lines@.len() == 0),
    {
        self.lines.len() == 0
    }
}

/// The fixed identification line shown on the welcome screen.
pub open spec fn welcome_text() -> Seq<char> {
    "termview - version 0.1.0"@
}

/// `n` spaces (none when `n` is not positive).
pub open spec fn spaces(n: int) -> Seq<char> {
    Seq::new((if n <= 0 { 0 } else { n }) as nat, |i: int| ' ')
}

/// `s` hard-truncated to at most `w` characters.
pub open spec fn trunc(s: Seq<char>, w: int) -> Seq<char> {
    if w < 0 {
        Seq::empty()
    } else if s.len() >= w {
        s.subrange(0, w)
    } else {
        s
    }
}

/// The welcome banner for a viewport `w` columns wide: a `~` marker, then
/// padding that centers the identification line, hard-truncated to `w`.
/// Degenerate widths fall back to a single character.
pub open spec fn welcome_line(w: int) -> Seq<char> {
    if w <= 0 {
        " "@
    } else if w <= welcome_text().len() {
        "~"@
    } else {
        trunc("~"@ + spaces((w - welcome_text().len() - 1) / 2) + welcome_text(), w)
    }
}

/// The text that row `r` of the viewport displays.
pub open spec fn row_text(v: View, r: int) -> Seq<char> {
    if 0 <= r < v.buffer.lines@.len() {
        trunc(v.buffer.lines@[r]@, v.size.width as int)
    } else if r == v.size.height as int / 2 && v.buffer.lines@.len() == 0 {
        welcome_line(v.size.width as int)
    } else {
        "~"@
    }
}

/// The three commands that draw one row: reposition, clear, print.
pub open spec fn line_ops(at: usize, text: Seq<char>) -> Seq<ScreenOp> {
    seq![
        ScreenOp::MoveCaretTo(Position { column: 0, row: at }),
        ScreenOp::ClearLine,
        ScreenOp::Print(text),
    ]
}

/// The commands that draw rows `0..n` of the viewport.
pub open spec fn rows_ops(v: View, n: int) -> Seq<ScreenOp>
    decreases n,
{
    if n <= 0 {
        Seq::empty()
    } else {
        rows_ops(v, n - 1) + line_ops((n - 1) as usize, row_text(v, n - 1))
    }
}

/// Everything a call to `render` queues: one draw per visible row when a
/// repaint is due and the viewport is drawable, nothing otherwise.
pub open spec fn render_ops(v: View) -> Seq<ScreenOp> {
    if v.need_redraw && v.size.height > 0 && v.size.width > 0 {
        rows_ops(v, v.size.height as int)
    } else {
        Seq::empty()
    }
}

/// The renderer state a call to `render` leaves behind: the redraw flag is
/// cleared after a full repaint and kept otherwise.
pub open spec fn after_render(v: View) -> View {
    View { need_redraw: v.need_redraw && !(v.size.height > 0 && v.size.width > 0), ..v }
}

/// Viewport renderer: the line buffer, the redraw-dirty flag, and the
/// cached viewport dimensions.
pub struct View {
    pub buffer: Buffer,
    pub need_redraw: bool,
    pub size: Size,
}

impl View {
    /// A renderer for a viewport of the given size, with an empty buffer
    /// and a repaint due.
    pub fn new(size: Size) -> (v: View)
        ensures
            v.buffer.lines@.len() == 0,
            v.need_redraw,
            v.size == size,
    {
        View { buffer: Buffer::new(), need_redraw: true, size }
    }

    /// Replace the cached viewport dimensions and mark a repaint due.
    /// No drawing happens here; it is deferred to the next `render`.
    pub fn resize(&mut self, to: Size)
        ensures
            final(self).size == to,
            final(self).need_redraw,
            final(self).buffer.lines == old(self).buffer.lines,
    {
        self.size = to;
        self.need_redraw = true;
    }

    /// Replace the buffer with freshly loaded lines, marking a repaint
    /// due; when the loader failed (`None`), leave everything unchanged.
    pub fn load(&mut self, loaded: Option<Vec<String>>)
        ensures
            loaded matches Some(lines) ==> final(self).buffer.lines == lines
                && final(self).need_redraw && final(self).size == old(self).size,
            loaded is None ==> *final(self) == *old(self),
    {
        match loaded {
            Some(lines) => {
                self.buffer = Buffer { lines };
                self.need_redraw = true;
            },
            None => {},
        }
    }

    /// Queue the commands that draw one row: move the caret to the row's
    /// start, clear the line, print the text.
    pub fn render_line(at: usize, line_text: &str, term: &mut Terminal)
        ensures
            final(term).ops() == old(term).ops() + line_ops(at, line_text@),
    {
        term.move_caret_to(Position { column: 0, row: at });
        term.clear_line();
        term.print(line_text);
        proof {
            assert(term.ops() =~= old(term).ops() + line_ops(at, line_text@));
        }
    }

    /// Compose the welcome banner for the given width.
    pub fn build_welcome_msg(width: usize) -> (r: String)
        ensures
            r@ == welcome_line(width as int),
    {
        proof {
            reveal_strlit("termview - version 0.1.0");
            reveal_strlit("~");
            reveal_strlit(" ");
        }
        if width == 0 {
            return String::from_str(" ");
        }
        let welcome_msg = "termview - version 0.1.0";
        let msg_len = welcome_msg.unicode_len();
        if width <= msg_len {
            return String::from_str("~");
        }
        let padding = (width - msg_len - 1) / 2;
        let mut full_message = String::from_str("~");
        let mut i: usize = 0;
        while i < padding
            invariant
                i <= padding,
                full_message@ == "~"@ + spaces(i as int),
            decreases padding - i,
        {
            full_message.append(" ");
            i += 1;
            proof {
                reveal_strlit(" ");
                assert(full_message@ =~= "~"@ + spaces(i as int));
            }
        }
        full_message.append(welcome_msg);
        proof {
            let w = width as int;
            let slack = w - welcome_text().len() - 1;
            let composed = "~"@ + spaces(slack / 2) + welcome_text();
            assert(full_message@ =~= composed);
            assert(slack / 2 <= slack) by (nonlinear_arith)
                requires
                    slack >= 0,
            ;
            assert(composed.len() <= w);
            assert(welcome_line(w) =~= composed);
        }
        full_message
    }

    /// Repaint the whole viewport if a repaint is due and the viewport is
    /// drawable; otherwise queue nothing. A full repaint clears the
    /// redraw flag.
    pub fn render(&mut self, term: &mut Terminal)
        ensures
            *final(self) == after_render(*old(self)),
            final(term).ops() == old(term).ops() + render_ops(*old(self)),
    {
        let ghost v0 = *self;
        let ghost ops0 = term.ops();
        if !self.need_redraw {
            proof {
                assert(term.ops() =~= ops0 + render_ops(v0));
            }
            return;
        }
        let height = self.size.height;
        let width = self.size.width;
        if height == 0 || width == 0 {
            proof {
                assert(term.ops() =~= ops0 + render_ops(v0));
            }
            return;
        }
        let vertical_center = height / 2;
        let mut current_row: usize = 0;
        while current_row < height
            invariant
                *self == v0,
                v0.need_redraw,
                height == v0.size.height,
                width == v0.size.width,
                height > 0,
                width > 0,
                vertical_center == height / 2,
                current_row <= height,
                term.ops() == ops0 + rows_ops(v0, current_row as int),
            decreases height - current_row,
        {
            if current_row < self.buffer.lines.len() {
                let line: &String = &self.buffer.lines[current_row];
                let len = line.as_str().unicode_len();
                if len >= width {
                    let truncated = line.as_str().substring_char(0, width);
                    Self::render_line(current_row, truncated, term);
                } else {
                    Self::render_line(current_row, line.as_str(), term);
                }
            } else if current_row == vertical_center && self.buffer.is_empty() {
                let message = Self::build_welcome_msg(width);
                Self::render_line(current_row, message.as_str(), term);
            } else {
                Self::render_line(current_row, "~", term);
            }
            proof {
                assert(rows_ops(v0, current_row + 1) == rows_ops(v0, current_row as int)
                    + line_ops(current_row, row_text(v0, current_row as int)));
                assert(term.ops() =~= ops0 + rows_ops(v0, current_row + 1));
            }
            current_row += 1;
        }
        self.need_redraw = false;
        proof {
            assert(term.ops() =~= ops0 + render_ops(v0));
        }
    }
}

/// A repaint is conclusive: whatever state `render` starts from, the state
/// it leaves behind queues no commands on the next call, so calling
/// `render` twice in a row draws only on the first call.
pub proof fn lemma_render_idempotent(v: View)
    ensures
        render_ops(after_render(v)) == Seq::<ScreenOp>::empty(),
{
}

/// Every buffer line is available for rendering, in order: row `r` of
/// the viewport displays line `r` of the buffer, truncated to the
/// viewport width, for as many rows as the buffer fills.
pub proof fn lemma_buffer_lines_render_in_order(v: View, r: int)
    requires
        0 <= r < v.buffer.lines@.len(),
    ensures
        row_text(v, r) == trunc(v.buffer.lines@[r]@, v.size.width as int),
{
}

/// The welcome banner never exceeds the viewport width (for any drawable
/// width), and degrades to the single `~` marker whenever the width cannot
/// fit the identification line.
pub proof fn lemma_welcome_banner_fits(w: int)
    requires
        w >= 1,
    ensures
        welcome_line(w).len() <= w,
        w <= welcome_text().len() ==> welcome_line(w) == "~"@,
{
    reveal_strlit("~");
    if w > welcome_text().len() {
        let composed = "~"@ + spaces((w - welcome_text().len() - 1) / 2) + welcome_text();
        if composed.len() >= w {
            assert(welcome_line(w) =~= composed.subrange(0, w));
        }
    }
}

} // verus!
