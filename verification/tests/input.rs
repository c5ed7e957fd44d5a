use rust_ui::app::App;
use rust_ui::history::{HistoryRing, HISTORY_CAPACITY};
use rust_ui::input::InputEditor;

fn type_text(editor: &mut InputEditor, text: &str) {
    for c in text.chars() {
        editor.insert(c);
    }
}

#[test]
fn insert_puts_the_scalar_at_the_cursor() {
    let mut editor = InputEditor::new();
    assert_eq!(editor.current_input(), "");
    assert_eq!(editor.cursor_position(), 0);
    assert!(editor.is_empty());
    type_text(&mut editor, "ac");
    editor.move_left();
    editor.insert('b');
    assert_eq!(editor.current_input(), "abc");
    assert_eq!(editor.cursor_position(), 2);
    assert_eq!(editor.input_len(), 3);
    assert!(!editor.is_empty());
}

#[test]
fn an_emoji_moves_the_cursor_by_one() {
    let mut app = App::new();
    app.handle_char('a');
    assert_eq!(app.cursor_position(), 1);
    app.handle_char('🎲');
    assert_eq!(app.cursor_position(), 2);
    app.handle_char('한');
    assert_eq!(app.cursor_position(), 3);
    assert_eq!(app.current_input(), "a🎲한");
    assert_eq!(app.current_input().len(), 8);
    app.handle_left();
    app.handle_left();
    assert_eq!(app.cursor_position(), 1);
    app.handle_char('\u{1F600}');
    assert_eq!(app.cursor_position(), 2);
    assert_eq!(app.current_input(), "a\u{1F600}🎲한");
}

#[test]
fn backspace_removes_the_scalar_before_the_cursor() {
    let mut editor = InputEditor::new();
    type_text(&mut editor, "a🎲c");
    editor.move_left();
    editor.backspace();
    assert_eq!(editor.current_input(), "ac");
    assert_eq!(editor.cursor_position(), 1);
    editor.backspace();
    assert_eq!(editor.current_input(), "c");
    assert_eq!(editor.cursor_position(), 0);
    editor.backspace();
    assert_eq!(editor.current_input(), "c");
    assert_eq!(editor.cursor_position(), 0);
}

#[test]
fn backspace_on_an_empty_line_does_nothing() {
    let mut app = App::new();
    app.handle_backspace();
    assert_eq!(app.current_input(), "");
    assert_eq!(app.cursor_position(), 0);
}

#[test]
fn cursor_moves_stop_at_both_ends() {
    let mut app = App::new();
    app.handle_left();
    assert_eq!(app.cursor_position(), 0);
    app.handle_right();
    assert_eq!(app.cursor_position(), 0);
    app.handle_char('x');
    app.handle_char('y');
    app.handle_right();
    assert_eq!(app.cursor_position(), 2);
    app.handle_left();
    app.handle_left();
    app.handle_left();
    assert_eq!(app.cursor_position(), 0);
    app.handle_right();
    assert_eq!(app.cursor_position(), 1);
    assert_eq!(app.current_input(), "xy");
}

#[test]
fn cursor_stays_in_the_text_under_mixed_edits() {
    let mut editor = InputEditor::new();
    let mut model: Vec<char> = Vec::new();
    let mut cursor = 0usize;
    let mut seed: u32 = 99;
    let letters = ['a', 'é', '한', '🎲', ' ', 'z'];
    for _ in 0..5000 {
        seed = seed.wrapping_mul(1664525).wrapping_add(1013904223);
        match (seed >> 24) % 6 {
            0 | 1 => {
                let c = letters[((seed >> 8) % 6) as usize];
                editor.insert(c);
                model.insert(cursor, c);
                cursor += 1;
            }
            2 => {
                editor.backspace();
                if cursor > 0 {
                    cursor -= 1;
                    model.remove(cursor);
                }
            }
            3 => {
                editor.move_left();
                if cursor > 0 {
                    cursor -= 1;
                }
            }
            4 => {
                editor.move_right();
                if cursor < model.len() {
                    cursor += 1;
                }
            }
            _ => {
                editor.move_left();
                editor.move_left();
                cursor = cursor.saturating_sub(2);
            }
        }
        assert!(editor.cursor_position() <= editor.input_len());
        assert_eq!(editor.cursor_position(), cursor);
        assert_eq!(editor.current_input(), model.iter().collect::<String>());
    }
}

#[test]
fn submit_hands_on_the_line_as_typed() {
    let mut editor = InputEditor::new();
    type_text(&mut editor, "  look around ");
    editor.move_left();
    assert_eq!(editor.submit(), Some("  look around ".to_string()));
    assert_eq!(editor.current_input(), "");
    assert_eq!(editor.cursor_position(), 0);
    assert_eq!(editor.input_history().len(), 1);
    assert_eq!(editor.input_history().entry(0).as_str(), "  look around ");
}

#[test]
fn submit_drops_white_space() {
    let mut editor = InputEditor::new();
    type_text(&mut editor, " \t\u{3000} ");
    assert_eq!(editor.submit(), None);
    assert_eq!(editor.current_input(), "");
    assert_eq!(editor.cursor_position(), 0);
    assert_eq!(editor.input_history().len(), 0);
    assert_eq!(editor.submit(), None);
    assert_eq!(editor.input_history().len(), 0);
}

#[test]
fn history_keeps_the_twenty_newest() {
    assert_eq!(HISTORY_CAPACITY, 20);
    let mut ring = HistoryRing::new();
    assert_eq!(ring.len(), 0);
    for i in 0..20 {
        ring.push(format!("input {}", i));
        assert_eq!(ring.len(), i + 1);
        assert_eq!(ring.entry(0).as_str(), "input 0");
    }
    for i in 20..45 {
        ring.push(format!("input {}", i));
        assert_eq!(ring.len(), 20);
        // The oldest left first.
        for k in 0..20 {
            assert_eq!(ring.entry(k).as_str(), format!("input {}", i - 19 + k));
        }
    }
}

#[test]
fn history_of_submits_is_bounded() {
    let mut app = App::new();
    for i in 0..30 {
        for c in format!("cmd{}", i).chars() {
            app.handle_char(c);
        }
        app.send_input();
        assert!(app.input_history().len() <= 20);
    }
    assert_eq!(app.input_history().len(), 20);
    assert_eq!(app.input_history().entry(0).as_str(), "cmd10");
    assert_eq!(app.input_history().entry(19).as_str(), "cmd29");
}

#[test]
fn history_display_without_entries() {
    let app = App::new();
    assert_eq!(app.get_input_history_display(), "입력 기록이 없습니다.");
    assert_eq!(HistoryRing::new().display(), "입력 기록이 없습니다.");
}

#[test]
fn history_display_shows_the_five_newest_first() {
    let mut ring = HistoryRing::new();
    ring.push("north".to_string());
    assert_eq!(ring.display(), "5. north");
    ring.push("south".to_string());
    ring.push("east".to_string());
    assert_eq!(ring.display(), "5. east\n4. south\n3. north");
    ring.push("west".to_string());
    ring.push("look".to_string());
    ring.push("take 🎲".to_string());
    ring.push("quit".to_string());
    assert_eq!(ring.display(), "5. quit\n4. take 🎲\n3. look\n2. west\n1. east");
}
