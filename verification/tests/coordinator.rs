use rust_ui::app::App;
use rust_ui::command::{
    command_for_key, Action, Command, KeyCode, KeyInput, KeyKind, TypingSpeed, PAGE_SCROLL_LINES,
};
use rust_ui::lines::{CONNECTION_LOST, EXIT_NOTICE, QUIT_HINT, START_BANNER};
use rust_ui::message::{Liveness, PythonMessage};
use rust_ui::model::{TICK_RATE_MS, TYPING_POLL_MS};

const SHIFT: u8 = 0b0000_0001;
const CONTROL: u8 = 0b0000_0010;
const ALT: u8 = 0b0000_0100;

fn press(code: KeyCode, modifiers: u8) -> KeyInput {
    KeyInput { code, modifiers, kind: KeyKind::Press }
}

fn type_text(app: &mut App, text: &str) {
    for c in text.chars() {
        app.handle_char(c);
    }
}

fn lines(app: &App) -> Vec<String> {
    app.output_lines().clone()
}

#[test]
fn a_new_front_end_is_empty_and_idle() {
    let app = App::new();
    assert!(lines(&app).is_empty());
    assert!(!app.is_typing());
    assert!(!app.has_pending());
    assert!(!app.is_python_running());
    assert_eq!(app.exit_code(), None);
    assert_eq!(app.scroll_offset(), 0);
    assert_eq!(app.get_total_lines(), 0);
    assert_eq!(app.current_input(), "");
    assert_eq!(app.cursor_position(), 0);
    assert_eq!(app.typing_speed(), 30);
    assert_eq!(app.program_name().as_str(), "🎲 LLM D&D Adventure");
    assert_eq!(app.current_location().as_str(), "게임 시작 준비중...");
    assert_eq!(app.user_status().as_str(), "게임 준비중...");
    assert_eq!(app.equipment_status().as_str(), "장비 준비중...");
}

#[test]
fn start_marks_the_process_as_running() {
    let mut app = App::new();
    app.start_python();
    assert!(app.is_python_running());
    assert_eq!(lines(&app), vec!["🐍 D&D 게임 시작! Python 엔진 가동중...".to_string()]);
    assert_eq!(START_BANNER, "🐍 D&D 게임 시작! Python 엔진 가동중...");
    assert_eq!(app.current_location().as_str(), "게임 초기화 중...");
}

#[test]
fn stop_is_idempotent() {
    let mut app = App::new();
    app.start_python();
    app.stop_python();
    assert!(!app.is_python_running());
    let after_first = lines(&app);
    app.stop_python();
    assert!(!app.is_python_running());
    assert_eq!(lines(&app), after_first);
}

#[test]
fn status_lines_follow_the_process() {
    let mut app = App::new();
    app.update_game_status();
    assert_eq!(app.user_status().as_str(), "⏸️ 게임 일시정지");
    assert_eq!(app.equipment_status().as_str(), "❌ 연결 끊김");
    app.start_python();
    app.update_game_status();
    assert_eq!(app.user_status().as_str(), "🎮 게임 진행 중 | 모험가 준비됨");
    assert_eq!(app.equipment_status().as_str(), "⚔️ 장비: 준비 완료 | 📦 인벤토리: 정상");
    app.stop_python();
    app.update_game_status();
    assert_eq!(app.user_status().as_str(), "⏸️ 게임 일시정지");
}

#[test]
fn output_lines_are_queued_in_order() {
    let mut app = App::new();
    app.update_output(
        vec![
            PythonMessage::Output("one".to_string()),
            PythonMessage::Output("two".to_string()),
            PythonMessage::Output("three".to_string()),
        ],
        0,
    );
    assert!(lines(&app).is_empty());
    assert!(app.is_typing());
    assert_eq!(app.pending_len(), 2);
    app.skip_typing();
    assert_eq!(lines(&app), vec!["one".to_string(), "two".to_string(), "three".to_string()]);
}

#[test]
fn no_events_change_nothing() {
    let mut app = App::new();
    app.add_system_message("kept");
    app.update_output(Vec::new(), 5);
    assert_eq!(lines(&app), vec!["kept".to_string()]);
    assert!(!app.is_typing());
}

#[test]
fn an_error_line_is_shown_at_once_while_a_line_is_typed() {
    let mut app = App::new();
    app.start_python();
    app.set_typing_speed_fast();
    app.update_output(vec![PythonMessage::Output("narration".to_string())], 0);
    app.update_typing_effect(10);
    app.update_typing_effect(20);
    assert!(app.is_typing());
    assert_eq!(app.typing_text().as_str(), "na");
    let before = lines(&app).len();
    app.update_output(vec![PythonMessage::Error("boom".to_string())], 25);
    let after = lines(&app);
    assert_eq!(after.len(), before + 1);
    assert_eq!(after[before], "🔥 ERROR: boom");
    // The job was neither interrupted nor consumed.
    assert!(app.is_typing());
    assert_eq!(app.typing_text().as_str(), "na");
    assert_eq!(app.typing_index(), 2);
    assert!(app.is_python_running());
    assert!(app.update_typing_effect(30));
    assert_eq!(app.typing_text().as_str(), "nar");
    // The typed line is displayed behind the error line.
    assert_eq!(app.visible_slice().last().unwrap(), "nar");
    app.skip_typing();
    let done = lines(&app);
    assert_eq!(done[done.len() - 2], "🔥 ERROR: boom");
    assert_eq!(done[done.len() - 1], "narration");
}

#[test]
fn an_exit_event_shows_the_code_and_stops_the_process() {
    let mut app = App::new();
    app.start_python();
    app.update_output(vec![PythonMessage::ProcessExit(1)], 0);
    assert!(!app.is_python_running());
    assert_eq!(app.exit_code(), Some(1));
    assert_eq!(lines(&app).last().unwrap(), "🏁 게임 종료 (코드: 1)");
}

#[test]
fn exit_codes_are_written_in_decimal() {
    let cases: [(i32, &str); 9] = [
        (0, "0"),
        (7, "7"),
        (10, "10"),
        (101, "101"),
        (255, "255"),
        (-1, "-1"),
        (-130, "-130"),
        (i32::MAX, "2147483647"),
        (i32::MIN, "-2147483648"),
    ];
    for (code, text) in cases.iter() {
        let mut app = App::new();
        app.update_output(vec![PythonMessage::ProcessExit(*code)], 0);
        assert_eq!(lines(&app), vec![format!("🏁 게임 종료 (코드: {})", text)]);
        assert_eq!(*text, code.to_string());
    }
}

#[test]
fn an_exit_leaves_queued_lines_to_be_typed() {
    let mut app = App::new();
    app.start_python();
    app.set_typing_speed_fast();
    app.update_output(
        vec![
            PythonMessage::Output("ab".to_string()),
            PythonMessage::Output("cd".to_string()),
            PythonMessage::ProcessExit(0),
        ],
        0,
    );
    assert!(!app.is_python_running());
    assert!(app.is_typing());
    assert_eq!(app.pending_len(), 1);
    let mut now = 0;
    while app.is_typing() {
        now += 10;
        assert!(app.update_typing_effect(now));
    }
    let all = lines(&app);
    assert_eq!(all[all.len() - 3], "🏁 게임 종료 (코드: 0)");
    assert_eq!(all[all.len() - 2], "ab");
    assert_eq!(all[all.len() - 1], "cd");
}

#[test]
fn the_end_of_the_process_is_announced_once_and_nothing_is_sent_after() {
    let mut app = App::new();
    app.start_python();
    app.check_liveness(Liveness::Running);
    assert!(app.is_python_running());
    assert_eq!(lines(&app).len(), 1);
    app.check_liveness(Liveness::Exited(1));
    assert!(!app.is_python_running());
    assert_eq!(app.exit_code(), Some(1));
    let after = lines(&app);
    assert_eq!(after.len(), 3);
    assert_eq!(after[1], "🏁 Python 게임 프로세스가 종료되었습니다.");
    assert_eq!(after[2], "📌 q 또는 ESC를 눌러 TUI를 종료하세요.");
    assert_eq!(after[1], EXIT_NOTICE);
    assert_eq!(after[2], QUIT_HINT);
    // A second look finds nothing new.
    app.check_liveness(Liveness::Exited(1));
    assert_eq!(lines(&app).len(), 3);
    // The operator types on: the input is echoed and recorded, not sent.
    type_text(&mut app, "look");
    assert_eq!(app.send_input(), None);
    assert_eq!(app.current_input(), "");
    assert_eq!(lines(&app).last().unwrap(), "👤 look");
    assert_eq!(app.input_history().len(), 1);
    type_text(&mut app, "again");
    assert!(matches!(app.handle_key(&press(KeyCode::Enter, 0)), Action::Continue));
    assert_eq!(lines(&app).last().unwrap(), "👤 again");
    // Quit still works.
    assert!(matches!(app.handle_key(&press(KeyCode::Esc, 0)), Action::Quit));
}

#[test]
fn an_exit_event_and_the_liveness_check_both_show() {
    let mut app = App::new();
    app.start_python();
    app.update_output(vec![PythonMessage::ProcessExit(1)], 0);
    app.check_liveness(Liveness::Exited(1));
    assert_eq!(
        lines(&app),
        vec![
            START_BANNER.to_string(),
            "🏁 게임 종료 (코드: 1)".to_string(),
            EXIT_NOTICE.to_string(),
            QUIT_HINT.to_string(),
        ]
    );
    type_text(&mut app, "hello?");
    assert_eq!(app.send_input(), None);
}

#[test]
fn a_submitted_input_is_echoed_recorded_and_handed_on() {
    let mut app = App::new();
    app.start_python();
    type_text(&mut app, " go north ");
    assert_eq!(app.send_input(), Some(" go north ".to_string()));
    assert_eq!(lines(&app).last().unwrap(), "👤  go north ");
    assert_eq!(app.input_history().len(), 1);
    assert_eq!(app.input_history().entry(0).as_str(), " go north ");
    assert_eq!(app.current_input(), "");
    assert_eq!(app.cursor_position(), 0);
}

#[test]
fn white_space_is_neither_sent_nor_recorded() {
    let mut app = App::new();
    app.start_python();
    let before = lines(&app);
    type_text(&mut app, "   ");
    assert_eq!(app.cursor_position(), 3);
    assert_eq!(app.send_input(), None);
    assert_eq!(lines(&app), before);
    assert_eq!(app.input_history().len(), 0);
    assert_eq!(app.current_input(), "");
    assert_eq!(app.cursor_position(), 0);
    assert_eq!(app.send_input(), None);
    assert_eq!(lines(&app), before);
}

#[test]
fn a_lost_connection_is_reported_and_ends_sending() {
    let mut app = App::new();
    app.start_python();
    type_text(&mut app, "first");
    assert_eq!(app.send_input(), Some("first".to_string()));
    app.connection_lost();
    assert!(!app.is_python_running());
    assert_eq!(lines(&app).last().unwrap(), "❌ Python 프로세스와의 연결이 끊어졌습니다.");
    assert_eq!(lines(&app).last().unwrap(), CONNECTION_LOST);
    type_text(&mut app, "second");
    assert_eq!(app.send_input(), None);
    assert_eq!(lines(&app).last().unwrap(), "👤 second");
}

#[test]
fn nothing_is_sent_before_the_process_was_started() {
    let mut app = App::new();
    type_text(&mut app, "early");
    assert_eq!(app.send_input(), None);
    assert_eq!(lines(&app), vec!["👤 early".to_string()]);
}

#[test]
fn keys_stand_for_commands() {
    let plain: Vec<(KeyCode, Option<Command>)> = vec![
        (KeyCode::Char('q'), Some(Command::Quit)),
        (KeyCode::Esc, Some(Command::Quit)),
        (KeyCode::Enter, Some(Command::Submit)),
        (KeyCode::Char('a'), Some(Command::InsertChar('a'))),
        (KeyCode::Char('c'), Some(Command::InsertChar('c'))),
        (KeyCode::Char(' '), Some(Command::InsertChar(' '))),
        (KeyCode::Char('1'), Some(Command::InsertChar('1'))),
        (KeyCode::Char('🎲'), Some(Command::InsertChar('🎲'))),
        (KeyCode::Backspace, Some(Command::Backspace)),
        (KeyCode::Left, Some(Command::MoveLeft)),
        (KeyCode::Right, Some(Command::MoveRight)),
        (KeyCode::Up, Some(Command::ScrollUp(1))),
        (KeyCode::Down, Some(Command::ScrollDown(1))),
        (KeyCode::PageUp, Some(Command::ScrollUp(5))),
        (KeyCode::PageDown, Some(Command::ScrollDown(5))),
        (KeyCode::Other, None),
    ];
    for (code, command) in plain.iter() {
        for modifiers in [0, SHIFT, ALT, SHIFT | ALT] {
            let got = command_for_key(&press(*code, modifiers));
            assert_eq!(format!("{:?}", got), format!("{:?}", command));
        }
    }
    assert_eq!(PAGE_SCROLL_LINES, 5);
}

#[test]
fn control_changes_what_some_keys_stand_for() {
    let with_control: Vec<(KeyCode, Option<Command>)> = vec![
        (KeyCode::Char('c'), Some(Command::Quit)),
        (KeyCode::Char('q'), Some(Command::Quit)),
        (KeyCode::Char(' '), Some(Command::SkipTyping)),
        (KeyCode::Char('1'), Some(Command::SetSpeed(TypingSpeed::Fast))),
        (KeyCode::Char('2'), Some(Command::SetSpeed(TypingSpeed::Normal))),
        (KeyCode::Char('3'), Some(Command::SetSpeed(TypingSpeed::Slow))),
        (KeyCode::Char('4'), Some(Command::InsertChar('4'))),
        (KeyCode::Char('a'), Some(Command::InsertChar('a'))),
        (KeyCode::Enter, Some(Command::Submit)),
        (KeyCode::Esc, Some(Command::Quit)),
        (KeyCode::Up, Some(Command::ScrollUp(1))),
        (KeyCode::PageDown, Some(Command::ScrollDown(5))),
        (KeyCode::Other, None),
    ];
    for (code, command) in with_control.iter() {
        for modifiers in [CONTROL, CONTROL | SHIFT, CONTROL | ALT, 0xff] {
            let got = command_for_key(&press(*code, modifiers));
            assert_eq!(format!("{:?}", got), format!("{:?}", command));
        }
    }
    // Every bit but the control bit leaves a key as it is.
    for modifiers in 0..=255u8 {
        let got = command_for_key(&press(KeyCode::Char('c'), modifiers));
        if modifiers & CONTROL != 0 {
            assert!(matches!(got, Some(Command::Quit)));
        } else {
            assert!(matches!(got, Some(Command::InsertChar('c'))));
        }
    }
}

#[test]
fn only_a_key_press_commands() {
    for kind in [KeyKind::Repeat, KeyKind::Release] {
        for code in [KeyCode::Char('q'), KeyCode::Enter, KeyCode::Esc, KeyCode::Up] {
            let key = KeyInput { code, modifiers: CONTROL, kind };
            assert!(command_for_key(&key).is_none());
            let key = KeyInput { code, modifiers: 0, kind };
            assert!(command_for_key(&key).is_none());
        }
    }
    let mut app = App::new();
    let release = KeyInput { code: KeyCode::Char('x'), modifiers: 0, kind: KeyKind::Release };
    assert!(matches!(app.handle_key(&release), Action::Continue));
    assert_eq!(app.current_input(), "");
}

#[test]
fn commands_reach_the_part_that_owns_them() {
    let mut app = App::new();
    app.start_python();
    for i in 0..40 {
        app.add_system_message(&format!("line {}", i));
    }
    assert!(matches!(app.handle_command(Command::InsertChar('h')), Action::Continue));
    assert!(matches!(app.handle_command(Command::InsertChar('i')), Action::Continue));
    assert!(matches!(app.handle_command(Command::InsertChar('!')), Action::Continue));
    assert!(matches!(app.handle_command(Command::MoveLeft), Action::Continue));
    assert!(matches!(app.handle_command(Command::Backspace), Action::Continue));
    assert_eq!(app.current_input(), "h!");
    assert_eq!(app.cursor_position(), 1);
    assert!(matches!(app.handle_command(Command::MoveRight), Action::Continue));
    assert_eq!(app.cursor_position(), 2);
    match app.handle_command(Command::Submit) {
        Action::Send(text) => assert_eq!(text, "h!"),
        _ => panic!("the input was to be sent"),
    }
    assert!(matches!(app.handle_command(Command::Submit), Action::Continue));
    assert_eq!(app.scroll_offset(), 17);
    assert!(matches!(app.handle_command(Command::ScrollUp(5)), Action::Continue));
    assert_eq!(app.scroll_offset(), 12);
    assert!(app.is_manually_scrolled());
    assert!(matches!(app.handle_command(Command::ScrollDown(1)), Action::Continue));
    assert_eq!(app.scroll_offset(), 13);
    assert!(matches!(app.handle_command(Command::SetSpeed(TypingSpeed::Fast)), Action::Continue));
    assert_eq!(app.typing_speed(), 10);
    assert!(matches!(app.handle_command(Command::SetSpeed(TypingSpeed::Slow)), Action::Continue));
    assert_eq!(app.typing_speed(), 80);
    assert!(matches!(app.handle_command(Command::SetSpeed(TypingSpeed::Normal)), Action::Continue));
    assert_eq!(app.typing_speed(), 30);
    app.queue_typing_text("a".to_string(), 0);
    app.queue_typing_text("b".to_string(), 0);
    assert!(matches!(app.handle_command(Command::SkipTyping), Action::Continue));
    assert!(!app.is_typing());
    assert!(app.is_python_running());
    assert!(matches!(app.handle_command(Command::Quit), Action::Quit));
    assert!(!app.is_python_running());
}

#[test]
fn keys_are_carried_out() {
    let mut app = App::new();
    app.start_python();
    assert!(matches!(app.handle_key(&press(KeyCode::Char('o'), 0)), Action::Continue));
    assert!(matches!(app.handle_key(&press(KeyCode::Char('k'), SHIFT)), Action::Continue));
    assert_eq!(app.current_input(), "ok");
    match app.handle_key(&press(KeyCode::Enter, 0)) {
        Action::Send(text) => assert_eq!(text, "ok"),
        _ => panic!("the input was to be sent"),
    }
    assert!(matches!(app.handle_key(&press(KeyCode::Other, 0)), Action::Continue));
    app.queue_typing_text("typed".to_string(), 0);
    assert!(matches!(app.handle_key(&press(KeyCode::Char(' '), CONTROL)), Action::Continue));
    assert!(!app.is_typing());
    assert_eq!(lines(&app).last().unwrap(), "typed");
    assert!(matches!(app.handle_key(&press(KeyCode::Char('1'), CONTROL)), Action::Continue));
    assert_eq!(app.typing_speed(), 10);
    assert!(matches!(app.handle_key(&press(KeyCode::Char('c'), CONTROL)), Action::Quit));
    assert!(!app.is_python_running());
}

#[test]
fn the_wait_for_a_key_is_short_while_typing() {
    assert_eq!(TYPING_POLL_MS, 25);
    assert_eq!(TICK_RATE_MS, 50);
    let mut app = App::new();
    assert_eq!(app.poll_timeout_ms(0), 50);
    assert_eq!(app.poll_timeout_ms(20), 30);
    assert_eq!(app.poll_timeout_ms(49), 1);
    assert_eq!(app.poll_timeout_ms(50), 0);
    assert_eq!(app.poll_timeout_ms(5000), 0);
    app.queue_typing_text("typed".to_string(), 0);
    assert_eq!(app.poll_timeout_ms(0), 25);
    assert_eq!(app.poll_timeout_ms(5000), 25);
    app.skip_typing();
    assert_eq!(app.poll_timeout_ms(10), 40);
}

#[test]
fn a_tick_of_the_idle_loop_lasts_fifty_milliseconds() {
    let mut app = App::new();
    app.end_tick(49);
    assert_eq!(app.poll_timeout_ms(49), 1);
    app.end_tick(50);
    assert_eq!(app.poll_timeout_ms(50), 50);
    assert_eq!(app.poll_timeout_ms(75), 25);
    app.end_tick(99);
    assert_eq!(app.poll_timeout_ms(99), 1);
    app.end_tick(130);
    assert_eq!(app.poll_timeout_ms(130), 50);
    // A clock that goes back counts as no time passed.
    assert_eq!(app.poll_timeout_ms(10), 50);
}

#[test]
fn a_tick_takes_events_in_before_it_animates() {
    let mut app = App::new();
    app.start_python();
    app.set_typing_speed_fast();
    // The line is activated at 100, so the tick at 100 finds nothing due.
    let changed = app.begin_tick(vec![PythonMessage::Output("hi".to_string())], 100);
    assert!(!changed);
    assert!(app.is_typing());
    assert_eq!(app.typing_index(), 0);
    assert_eq!(app.user_status().as_str(), "🎮 게임 진행 중 | 모험가 준비됨");
    // Ten milliseconds later the error is shown first, then a scalar revealed.
    let changed = app.begin_tick(vec![PythonMessage::Error("bad".to_string())], 110);
    assert!(changed);
    assert_eq!(app.typing_text().as_str(), "h");
    assert_eq!(lines(&app).last().unwrap(), "🔥 ERROR: bad");
    // The exit is shown first; then the tick reveals the last scalar and
    // the finished line follows it into the scrollback.
    let changed = app.begin_tick(vec![PythonMessage::ProcessExit(3)], 120);
    assert!(changed);
    assert!(!app.is_typing());
    let all = lines(&app);
    assert_eq!(all[all.len() - 2], "🏁 게임 종료 (코드: 3)");
    assert_eq!(all[all.len() - 1], "hi");
    assert_eq!(app.user_status().as_str(), "⏸️ 게임 일시정지");
    assert_eq!(app.equipment_status().as_str(), "❌ 연결 끊김");
    assert!(!app.begin_tick(Vec::new(), 130));
    assert_eq!(lines(&app).len(), all.len());
}

#[test]
fn the_terminal_cursor_sits_behind_the_border() {
    let mut app = App::new();
    assert_eq!(app.input_cursor_column(0, 80), None);
    type_text(&mut app, "a🎲c");
    // No cursor while the process does not run.
    assert_eq!(app.input_cursor_column(0, 80), None);
    app.start_python();
    assert_eq!(app.input_cursor_column(0, 80), Some(4));
    assert_eq!(app.input_cursor_column(10, 80), Some(14));
    app.handle_left();
    assert_eq!(app.cursor_position(), 2);
    assert_eq!(app.input_cursor_column(10, 80), Some(13));
    // The column has to lie before the right border.
    assert_eq!(app.input_cursor_column(10, 5), Some(13));
    assert_eq!(app.input_cursor_column(10, 4), None);
    assert_eq!(app.input_cursor_column(10, 0), None);
    assert_eq!(app.input_cursor_column(u16::MAX, 80), None);
    assert_eq!(app.input_cursor_column(u16::MAX - 3, 80), Some(u16::MAX));
}
