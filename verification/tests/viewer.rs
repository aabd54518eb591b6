use termview::editor::{Editor, Event, KeyCode, KeyEvent};
use termview::terminal::{Position, Size, TermCommand, Terminal};
use termview::view::View;

const WELCOME: &str = "termview - version 0.1.0";

fn key(code: KeyCode) -> Event {
    Event::Key(KeyEvent {
        code,
        control: false,
        press: true,
    })
}

fn ctrl(code: KeyCode) -> Event {
    Event::Key(KeyEvent {
        code,
        control: true,
        press: true,
    })
}

/// The text printed for each visible row, in order, by one repaint.
fn rendered_rows(view: &mut View) -> Vec<String> {
    let mut term = Terminal::new();
    view.render(&mut term);
    view_commands_rows(term.take_commands())
}

fn view_commands_rows(commands: Vec<TermCommand>) -> Vec<String> {
    let mut rows = Vec::new();
    let mut index = 0;
    while index < commands.len() {
        assert_eq!(
            commands[index],
            TermCommand::MoveCaretTo(Position {
                column: 0,
                row: rows.len(),
            })
        );
        assert_eq!(commands[index + 1], TermCommand::ClearLine);
        match &commands[index + 2] {
            TermCommand::Print(text) => rows.push(text.clone()),
            other => panic!("expected a print command, got {:?}", other),
        }
        index += 3;
    }
    rows
}

#[test]
fn banner_degenerate_widths() {
    assert_eq!(View::build_welcome_msg(0), " ");
    assert_eq!(View::build_welcome_msg(1), "~");
    assert_eq!(View::build_welcome_msg(WELCOME.len()), "~");
}

#[test]
fn banner_exact_fit_and_centering() {
    assert_eq!(View::build_welcome_msg(25), format!("~{WELCOME}"));
    assert_eq!(View::build_welcome_msg(27), format!("~ {WELCOME}"));
    let at_80 = View::build_welcome_msg(80);
    assert_eq!(at_80, format!("~{}{}", " ".repeat(27), WELCOME));
    assert!(at_80.chars().count() <= 80);
}

#[test]
fn banner_never_wider_than_viewport() {
    for width in 1..200 {
        assert!(View::build_welcome_msg(width).chars().count() <= width);
    }
}

#[test]
fn arrow_moves_saturate_at_edges() {
    let size = Size {
        height: 24,
        width: 80,
    };
    let mut editor = Editor::new(size);
    for _ in 0..80 {
        editor.evaluate_event(&key(KeyCode::Right), size);
    }
    assert_eq!(editor.location.x, 79);
    assert_eq!(editor.location.y, 0);
    editor.evaluate_event(&key(KeyCode::Up), size);
    assert_eq!(editor.location.y, 0);
    for _ in 0..30 {
        editor.evaluate_event(&key(KeyCode::Down), size);
    }
    assert_eq!(editor.location.y, 23);
    editor.evaluate_event(&key(KeyCode::Left), size);
    assert_eq!(editor.location.x, 78);
}

#[test]
fn ctrl_arrows_jump_to_edges() {
    let size = Size {
        height: 24,
        width: 80,
    };
    let mut editor = Editor::new(size);
    for _ in 0..5 {
        editor.evaluate_event(&key(KeyCode::Right), size);
        editor.evaluate_event(&key(KeyCode::Down), size);
    }
    editor.evaluate_event(&ctrl(KeyCode::Up), size);
    assert_eq!(editor.location.y, 0);
    editor.evaluate_event(&ctrl(KeyCode::Down), size);
    assert_eq!(editor.location.y, 23);
    editor.evaluate_event(&ctrl(KeyCode::Left), size);
    assert_eq!(editor.location.x, 0);
    editor.evaluate_event(&ctrl(KeyCode::Right), size);
    assert_eq!(editor.location.x, 79);
}

#[test]
fn only_ctrl_q_press_quits() {
    let size = Size {
        height: 24,
        width: 80,
    };
    let mut editor = Editor::new(size);
    editor.evaluate_event(&key(KeyCode::Char('q')), size);
    assert!(!editor.flag_quit);
    editor.evaluate_event(
        &Event::Key(KeyEvent {
            code: KeyCode::Char('q'),
            control: true,
            press: false,
        }),
        size,
    );
    assert!(!editor.flag_quit);
    editor.evaluate_event(&Event::Other, size);
    assert!(!editor.flag_quit);
    editor.evaluate_event(&ctrl(KeyCode::Char('q')), size);
    assert!(editor.flag_quit);
}

#[test]
fn resize_updates_view_and_marks_redraw() {
    let size = Size {
        height: 24,
        width: 80,
    };
    let mut editor = Editor::new(size);
    let mut term = Terminal::new();
    editor.refresh_screen(&mut term);
    term.take_commands();
    editor.evaluate_event(&Event::Resize(100, 50), size);
    assert_eq!(
        editor.view.size,
        Size {
            height: 50,
            width: 100,
        }
    );
    assert!(editor.view.need_redraw);
}

#[test]
fn loaded_lines_render_in_order() {
    let mut view = View::new(Size {
        height: 4,
        width: 40,
    });
    view.load(Some(vec![
        "first line".to_string(),
        "second line".to_string(),
        "third line".to_string(),
    ]));
    let rows = rendered_rows(&mut view);
    assert_eq!(rows, vec!["first line", "second line", "third line", "~"]);
}

#[test]
fn long_lines_are_truncated_to_width() {
    let mut view = View::new(Size {
        height: 2,
        width: 5,
    });
    view.load(Some(vec![
        "abcdefghij".to_string(),
        "klmno".to_string(),
    ]));
    let rows = rendered_rows(&mut view);
    assert_eq!(rows, vec!["abcde", "klmno"]);
}

#[test]
fn failed_load_leaves_buffer_unchanged() {
    let mut view = View::new(Size {
        height: 2,
        width: 40,
    });
    view.load(Some(vec!["kept".to_string()]));
    view.load(None);
    assert_eq!(view.buffer.lines, vec!["kept".to_string()]);
    let rows = rendered_rows(&mut view);
    assert_eq!(rows, vec!["kept", "~"]);
}

#[test]
fn render_draws_once_until_invalidated() {
    let mut view = View::new(Size {
        height: 3,
        width: 20,
    });
    let mut term = Terminal::new();
    view.render(&mut term);
    assert_eq!(term.take_commands().len(), 9);
    view.render(&mut term);
    assert_eq!(term.take_commands().len(), 0);
    view.resize(Size {
        height: 2,
        width: 20,
    });
    view.render(&mut term);
    assert_eq!(term.take_commands().len(), 6);
}

#[test]
fn render_skips_degenerate_viewports() {
    let mut view = View::new(Size {
        height: 0,
        width: 20,
    });
    let mut term = Terminal::new();
    view.render(&mut term);
    assert_eq!(term.take_commands().len(), 0);
    assert!(view.need_redraw);
    view.resize(Size {
        height: 3,
        width: 0,
    });
    view.render(&mut term);
    assert_eq!(term.take_commands().len(), 0);
    assert!(view.need_redraw);
}

#[test]
fn welcome_screen_then_quit_end_to_end() {
    let size = Size {
        height: 24,
        width: 80,
    };
    let mut editor = Editor::new(size);
    let mut term = Terminal::new();

    editor.refresh_screen(&mut term);
    let mut commands = term.take_commands();
    assert_eq!(commands.len(), 76);
    assert_eq!(commands[0], TermCommand::HideCaret);
    assert_eq!(
        commands[1],
        TermCommand::MoveCaretTo(Position { column: 0, row: 0 })
    );
    let rows = view_commands_rows(commands.drain(2..74).collect());
    assert_eq!(rows.len(), 24);
    for (row, text) in rows.iter().enumerate() {
        if row == 12 {
            assert_eq!(text, &format!("~{}{}", " ".repeat(27), WELCOME));
        } else {
            assert_eq!(text, "~");
        }
    }
    assert_eq!(
        commands[2],
        TermCommand::MoveCaretTo(Position { column: 0, row: 0 })
    );
    assert_eq!(commands[3], TermCommand::ShowCaret);

    for _ in 0..80 {
        editor.evaluate_event(&key(KeyCode::Right), size);
    }
    assert_eq!(editor.location.x, 79);

    editor.evaluate_event(&ctrl(KeyCode::Char('q')), size);
    assert!(editor.flag_quit);
    editor.refresh_screen(&mut term);
    let farewell = term.take_commands();
    assert_eq!(farewell.len(), 5);
    assert_eq!(farewell[0], TermCommand::HideCaret);
    assert_eq!(
        farewell[1],
        TermCommand::MoveCaretTo(Position { column: 0, row: 0 })
    );
    assert_eq!(farewell[2], TermCommand::ClearScreen);
    assert_eq!(farewell[3], TermCommand::Print("Goodbye!\r\n".to_string()));
    assert_eq!(farewell[4], TermCommand::ShowCaret);
}
