//! Input handling and the editor state machine.
//!
//! The editor owns the quit flag and the cursor location, dispatches one
//! event at a time, and composes each repaint through the [`Terminal`]
//! queue. The surrounding binary runs the blocking read-evaluate-render
//! loop and performs the queued commands; every decision it acts on is
//! made here.

use vstd::prelude::*;

use vstd::view::View as _;

use crate::terminal::{Position, ScreenOp, Size, Terminal};
use crate::view::{after_render, render_ops, View};

verus! {

/// Cursor location in viewport space, zero-based.
#[derive(Clone, Copy, Debug, PartialEq, Eq, Structural)]
pub struct Location {
    pub x: usize,
    pub y: usize,
}

/// The keys the editor distinguishes; every other key is `Other`.
#[derive(Clone, Copy, Debug, PartialEq, Eq, Structural)]
pub enum KeyCode {
    Up,
    Down,
    Left,
    Right,
    Char(char),
    Other,
}

/// A keyboard event, reduced to what dispatch reads.
#[derive(Clone, Copy, Debug, PartialEq, Eq, Structural)]
pub struct KeyEvent {
    pub code: KeyCode,
    /// The Control modifier, and no other modifier, is held.
    pub control: bool,
    /// The key was pressed (not repeated or released).
    pub press: bool,
}

/// One terminal event: a key, a viewport resize in character cells, or
/// anything else (ignored).
#[derive(Clone, Copy, Debug, PartialEq, Eq, Structural)]
pub enum Event {
    Key(KeyEvent),
    Resize(u16, u16),
    Other,
}

/// `x - 1`, saturating at zero.
pub open spec fn dec1(x: usize) -> usize {
    if x == 0 {
        0
    } else {
        (x - 1) as usize
    }
}

/// The last valid coordinate of an axis `limit` cells long (zero when the
/// axis is empty).
pub open spec fn edge(limit: usize) -> usize {
    if limit == 0 {
        0
    } else {
        (limit - 1) as usize
    }
}

/// `x + 1`, clamped so it never passes the axis edge.
pub open spec fn inc1_clamped(x: usize, limit: usize) -> usize {
    if x < edge(limit) {
        (x + 1) as usize
    } else {
        edge(limit)
    }
}

/// Where one key event moves the cursor: a pressed arrow moves one cell,
/// saturating at the viewport edges; with the Control modifier it jumps
/// to the corresponding edge; everything else leaves the cursor alone.
pub open spec fn move_point_spec(loc: Location, key: KeyEvent, size: Size) -> Location {
    if !key.press {
        loc
    } else {
        match key.code {
            KeyCode::Up => Location {
                y: if key.control {
                    0
                } else {
                    dec1(loc.y)
                },
                ..loc
            },
            KeyCode::Down => Location {
                y: if key.control {
                    edge(size.height)
                } else {
                    inc1_clamped(loc.y, size.height)
                },
                ..loc
            },
            KeyCode::Left => Location {
                x: if key.control {
                    0
                } else {
                    dec1(loc.x)
                },
                ..loc
            },
            KeyCode::Right => Location {
                x: if key.control {
                    edge(size.width)
                } else {
                    inc1_clamped(loc.x, size.width)
                },
                ..loc
            },
            _ => loc,
        }
    }
}

/// The one event that quits: Control held alone, `q` pressed.
pub open spec fn is_quit_event(ev: Event) -> bool {
    &&& ev matches Event::Key(k)
    &&& k.press
    &&& k.control
    &&& k.code == KeyCode::Char('q')
}

/// Everything one call to `refresh_screen` queues: hide the caret, home
/// it, then either the farewell screen (once quitting) or the rendered
/// viewport with the caret restored to the cursor, then show the caret.
pub open spec fn refresh_ops(e: Editor) -> Seq<ScreenOp> {
    let prologue = seq![
        ScreenOp::HideCaret,
        ScreenOp::MoveCaretTo(Position { column: 0, row: 0 }),
    ];
    let body = if e.flag_quit {
        seq![ScreenOp::ClearScreen, ScreenOp::Print("Goodbye!\r\n"@)]
    } else {
        render_ops(e.view) + seq![
            ScreenOp::MoveCaretTo(Position { column: e.location.x, row: e.location.y }),
        ]
    };
    prologue + body + seq![ScreenOp::ShowCaret]
}

/// The editor: quit flag, cursor location, and the viewport renderer.
pub struct Editor {
    pub flag_quit: bool,
    pub location: Location,
    pub view: View,
}

impl Editor {
    /// An editor for a viewport of the given size: not quitting, cursor
    /// at the origin, empty buffer, first repaint due.
    pub fn new(size: Size) -> (e: Editor)
        ensures
            !e.flag_quit,
            e.location == (Location { x: 0, y: 0 }),
            e.view.buffer.lines@.len() == 0,
            e.view.need_redraw,
            e.view.size == size,
    {
        Editor {
            flag_quit: false,
            location: Location { x: 0, y: 0 },
            view: View::new(size),
        }
    }

    /// Move the cursor as one key event demands, clamped to the viewport
    /// of the given size.
    pub fn move_point(&mut self, key_event: &KeyEvent, size: Size)
        ensures
            final(self).location == move_point_spec(old(self).location, *key_event, size),
            final(self).flag_quit == old(self).flag_quit,
            final(self).view == old(self).view,
    {
        let mut x = self.location.x;
        let mut y = self.location.y;
        let Size { height, width } = size;

        if key_event.press {
            match key_event.code {
                KeyCode::Up => {
                    if key_event.control {
                        y = 0;
                    } else {
                        y = if y == 0 { 0 } else { y - 1 };
                    }
                },
                KeyCode::Down => {
                    let limit = if height == 0 { 0 } else { height - 1 };
                    if key_event.control {
                        y = limit;
                    } else {
                        y = if y < limit { y + 1 } else { limit };
                    }
                },
                KeyCode::Left => {
                    if key_event.control {
                        x = 0;
                    } else {
                        x = if x == 0 { 0 } else { x - 1 };
                    }
                },
                KeyCode::Right => {
                    let limit = if width == 0 { 0 } else { width - 1 };
                    if key_event.control {
                        x = limit;
                    } else {
                        x = if x < limit { x + 1 } else { limit };
                    }
                },
                _ => {},
            }
        }

        self.location = Location { x, y };
    }

    /// Dispatch one event: Ctrl+Q sets the quit flag, any other key moves
    /// the cursor, a resize is forwarded to the renderer, and everything
    /// else is ignored.
    pub fn evaluate_event(&mut self, event: &Event, size: Size)
        ensures
            final(self).flag_quit == (old(self).flag_quit || is_quit_event(*event)),
            final(self).location == (match *event {
                Event::Key(k) => if is_quit_event(*event) {
                    old(self).location
                } else {
                    move_point_spec(old(self).location, k, size)
                },
                _ => old(self).location,
            }),
            *event matches Event::Resize(w, h) ==> {
                &&& final(self).view.size == (Size { height: h as usize, width: w as usize })
                &&& final(self).view.need_redraw
                &&& final(self).view.buffer.lines == old(self).view.buffer.lines
            },
            !(*event matches Event::Resize(_, _)) ==> final(self).view == old(self).view,
    {
        match event {
            Event::Key(key_event) => {
                let quit = key_event.press && key_event.control && (match key_event.code {
                    KeyCode::Char(c) => c == 'q',
                    _ => false,
                });
                if quit {
                    self.flag_quit = true;
                } else {
                    self.move_point(key_event, size);
                }
            },
            Event::Resize(width_u16, height_u16) => {
                let height = *height_u16 as usize;
                let width = *width_u16 as usize;
                self.view.resize(Size { height, width });
            },
            Event::Other => {},
        }
    }

    /// Queue one full repaint: the farewell screen once the quit flag is
    /// set, otherwise the rendered viewport with the caret put back on
    /// the cursor. The caret is hidden while drawing to avoid flicker.
    pub fn refresh_screen(&mut self, term: &mut Terminal)
        ensures
            final(term).ops() == old(term).ops() + refresh_ops(*old(self)),
            final(self).flag_quit == old(self).flag_quit,
            final(self).location == old(self).location,
            old(self).flag_quit ==> final(self).view == old(self).view,
            !old(self).flag_quit ==> final(self).view == after_render(old(self).view),
    {
        term.hide_caret();
        term.move_caret_to(Position { column: 0, row: 0 });
        if self.flag_quit {
            term.clear_screen();
            term.print("Goodbye!\r\n");
        } else {
            self.view.render(term);
            term.move_caret_to(Position { column: self.location.x, row: self.location.y });
        }
        term.show_caret();
        proof {
            assert(term.ops() =~= old(term).ops() + refresh_ops(*old(self)));
        }
    }
}

/// The cursor is inside the viewport.
pub open spec fn in_viewport(loc: Location, size: Size) -> bool {
    loc.x < size.width && loc.y < size.height
}

/// One key event, arrow or jump, keeps the cursor inside a non-empty
/// viewport: it never goes negative and never reaches the width or
/// height.
pub proof fn lemma_move_point_in_viewport(loc: Location, key: KeyEvent, size: Size)
    requires
        size.width >= 1,
        size.height >= 1,
        in_viewport(loc, size),
    ensures
        in_viewport(move_point_spec(loc, key, size), size),
{
}

/// The cursor location after a whole sequence of key events, first event
/// first.
pub open spec fn apply_moves(loc: Location, keys: Seq<KeyEvent>, size: Size) -> Location
    decreases keys.len(),
{
    if keys.len() == 0 {
        loc
    } else {
        apply_moves(move_point_spec(loc, keys[0], size), keys.drop_first(), size)
    }
}

/// Any sequence of key events keeps the cursor inside a non-empty
/// viewport.
pub proof fn lemma_moves_stay_in_viewport(loc: Location, keys: Seq<KeyEvent>, size: Size)
    requires
        size.width >= 1,
        size.height >= 1,
        in_viewport(loc, size),
    ensures
        in_viewport(apply_moves(loc, keys, size), size),
    decreases keys.len(),
{
    if keys.len() > 0 {
        lemma_move_point_in_viewport(loc, keys[0], size);
        lemma_moves_stay_in_viewport(move_point_spec(loc, keys[0], size), keys.drop_first(), size);
    }
}

/// A Control-modified arrow press lands exactly on the corresponding
/// viewport edge, whatever the starting position.
pub proof fn lemma_ctrl_jump_edges(loc: Location, key: KeyEvent, size: Size)
    requires
        key.press,
        key.control,
        size.width >= 1,
        size.height >= 1,
    ensures
        key.code == KeyCode::Up ==> move_point_spec(loc, key, size).y == 0,
        key.code == KeyCode::Down ==> move_point_spec(loc, key, size).y == size.height - 1,
        key.code == KeyCode::Left ==> move_point_spec(loc, key, size).x == 0,
        key.code == KeyCode::Right ==> move_point_spec(loc, key, size).x == size.width - 1,
{
}

} // verus!
