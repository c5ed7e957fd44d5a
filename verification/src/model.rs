//! The front-end as a mathematical value, and what each operation makes of
//! it. The contracts of the coordinator are stated over this model.
//!
//! Times are milliseconds on a clock of the caller's choosing that never
//! goes back; where it does, no time counts as passed.

use crate::command::{command_of, Command, KeyInput, TypingSpeed};
use crate::input::EditorView;
use crate::lines::{
    echo_line, error_line, exit_line, CONNECTION_LOST, CURSOR_MARK, EQUIPMENT_PREPARING,
    EQUIPMENT_RUNNING, EQUIPMENT_STOPPED, EXIT_NOTICE, LOCATION_PREPARING, LOCATION_STARTING,
    PROGRAM_NAME, QUIT_HINT, START_BANNER, USER_STATUS_PREPARING, USER_STATUS_RUNNING,
    USER_STATUS_STOPPED,
};
use crate::message::{Liveness, PythonMessage};
use crate::text::join_lines;
use crate::typing::{
    elapsed, TypingView, FAST_INTERVAL_MS, NORMAL_INTERVAL_MS, SLOW_INTERVAL_MS,
};
use crate::viewport::{line_count, ViewportView};
use vstd::prelude::*;

verus! {

/// How many lines the output window shows.
pub const MAX_DISPLAY_LINES: usize = 25;

/// How long the coordinator waits for a key while a line is being typed, in
/// milliseconds.
pub const TYPING_POLL_MS: u64 = 25;

/// The length of one tick of an idle coordinator, in milliseconds.
pub const TICK_RATE_MS: u64 = 50;

/// The reveal interval of the cadence `speed`.
pub open spec fn interval_of(speed: TypingSpeed) -> nat {
    match speed {
        TypingSpeed::Fast => FAST_INTERVAL_MS as nat,
        TypingSpeed::Normal => NORMAL_INTERVAL_MS as nat,
        TypingSpeed::Slow => SLOW_INTERVAL_MS as nat,
    }
}

/// The state of the front-end as a mathematical value.
pub struct AppView {
    /// The lines that were shown in full, in the order in which they were
    /// appended.
    pub scrollback: Seq<Seq<char>>,
    /// The scroll state of the output window.
    pub viewport: ViewportView,
    /// The typing engine.
    pub typing: TypingView,
    /// The input editor.
    pub editor: EditorView,
    /// Whether the bridged process is taken to be running.
    pub running: bool,
    /// The exit code of the process, once it is known.
    pub exit_code: Option<i32>,
    /// Whether the end of the process was announced in the scrollback.
    pub exit_announced: bool,
    /// The name of the program in the header.
    pub program_name: Seq<char>,
    /// Where the session stands, in the header.
    pub current_location: Seq<char>,
    /// The status line of the user.
    pub user_status: Seq<char>,
    /// The status line of the equipment.
    pub equipment_status: Seq<char>,
    /// When the current tick of an idle coordinator began.
    pub last_tick: nat,
}

impl AppView {
    /// The front-end at its start: nothing shown, nothing typed, nothing
    /// queued, the window at the top and following, the normal cadence, and
    /// no process.
    pub open spec fn initial() -> AppView {
        AppView {
            scrollback: Seq::empty(),
            viewport: ViewportView {
                scroll_offset: 0,
                max_visible: MAX_DISPLAY_LINES as nat,
                manual_scroll: false,
            },
            typing: TypingView {
                pending: Seq::empty(),
                active: None,
                interval: NORMAL_INTERVAL_MS as nat,
            },
            editor: EditorView { text: Seq::empty(), cursor: 0, history: Seq::empty() },
            running: false,
            exit_code: None,
            exit_announced: false,
            program_name: PROGRAM_NAME@,
            current_location: LOCATION_PREPARING@,
            user_status: USER_STATUS_PREPARING@,
            equipment_status: EQUIPMENT_PREPARING@,
            last_tick: 0,
        }
    }

    /// How many lines there are to show: the scrollback, and the line being
    /// typed while a job is active.
    pub open spec fn total_lines(self) -> nat {
        line_count(self.scrollback.len(), self.typing.is_typing())
    }

    /// How many lines the scrollbar reckons with: the lines to show, and one
    /// more while lines wait to be typed.
    pub open spec fn scrollbar_lines(self) -> nat {
        if self.typing.pending.len() > 0 {
            self.total_lines() + 1
        } else {
            self.total_lines()
        }
    }

    /// Whether a scrollbar is drawn: the lines that it reckons with are more
    /// than the window shows.
    pub open spec fn needs_scrollbar(self) -> bool {
        self.scrollbar_lines() > self.viewport.max_visible
    }

    /// The parts are well formed, and the viewport is settled on the lines
    /// that there are to show.
    pub open spec fn wf(self) -> bool {
        &&& self.typing.wf()
        &&& self.editor.wf()
        &&& self.viewport.max_visible >= 1
        &&& self.viewport.settled(self.total_lines())
    }

    /// The state after the viewport took note of the lines that there are.
    pub open spec fn refollow(self) -> AppView {
        AppView { viewport: self.viewport.follow(self.total_lines()), ..self }
    }

    /// The state after `line` was appended to the scrollback.
    pub open spec fn add_system_message(self, line: Seq<char>) -> AppView {
        AppView { scrollback: self.scrollback.push(line), ..self }.refollow()
    }

    /// The state after `text` was queued for typing at `now`.
    pub open spec fn queue_typing_text(self, text: Seq<char>, now: nat) -> AppView {
        AppView { typing: self.typing.enqueue(text, now), ..self }.refollow()
    }

    /// The state after a tick of the animation at `now`: the line whose
    /// last scalar the tick revealed is the newest of the scrollback.
    pub open spec fn update_typing_effect(self, now: nat) -> AppView {
        AppView {
            scrollback: self.scrollback + self.typing.emitted(now),
            typing: self.typing.tick(now),
            ..self
        }.refollow()
    }

    /// The state after the animation was skipped: all lines that the engine
    /// held are in the scrollback, in their order.
    pub open spec fn skip_typing(self) -> AppView {
        AppView {
            scrollback: self.scrollback + self.typing.flushed(),
            typing: self.typing.skip(),
            ..self
        }.refollow()
    }

    /// The state after one event from the process: a line of output is
    /// queued for typing; a line from the error stream and an exit are shown
    /// at once, whatever is being typed, and an exit marks the process as
    /// stopped. Neither touches the typing engine: lines that were queued
    /// before an exit are still typed out, in their order.
    pub open spec fn absorb(self, message: PythonMessage, now: nat) -> AppView {
        match message {
            PythonMessage::Output(line) => self.queue_typing_text(line@, now),
            PythonMessage::Error(line) => self.add_system_message(error_line(line@)),
            PythonMessage::ProcessExit(code) => AppView {
                running: false,
                exit_code: Some(code),
                ..self.add_system_message(exit_line(code as int))
            },
        }
    }

    /// The state after the events `messages`, in order.
    pub open spec fn absorb_all(self, messages: Seq<PythonMessage>, now: nat) -> AppView
        decreases messages.len(),
    {
        if messages.len() == 0 {
            self
        } else {
            self.absorb_all(messages.drop_last(), now).absorb(messages.last(), now)
        }
    }

    /// The state after a submit: the input line is reset, and an input that
    /// the editor hands on is echoed in the scrollback.
    pub open spec fn send_input(self) -> AppView {
        let submitted = AppView { editor: self.editor.submit(), ..self };
        match self.editor.submitted() {
            Some(text) => submitted.add_system_message(echo_line(text)),
            None => submitted,
        }
    }

    /// The text that a submit hands to the process: what the editor hands
    /// on, while the process runs; nothing once it has stopped.
    pub open spec fn outgoing(self) -> Option<Seq<char>> {
        if self.running {
            self.editor.submitted()
        } else {
            None
        }
    }

    /// The state after an input could not be delivered: a line says so, and
    /// the process counts as stopped.
    pub open spec fn connection_lost(self) -> AppView {
        AppView { running: false, ..self.add_system_message(CONNECTION_LOST@) }
    }

    /// The state after a look at the process. A process that runs changes
    /// nothing. One that has ended counts as stopped, and the first time
    /// this is found, the exit notice and the hint how to quit are appended.
    pub open spec fn check_liveness(self, liveness: Liveness) -> AppView {
        match liveness {
            Liveness::Running => self,
            Liveness::Exited(code) => if self.exit_announced {
                AppView { running: false, exit_code: Some(code), ..self }
            } else {
                AppView {
                    running: false,
                    exit_code: Some(code),
                    exit_announced: true,
                    ..self.add_system_message(EXIT_NOTICE@).add_system_message(QUIT_HINT@)
                }
            },
        }
    }

    /// The state after the process was started.
    pub open spec fn start_python(self) -> AppView {
        AppView {
            running: true,
            current_location: LOCATION_STARTING@,
            ..self.add_system_message(START_BANNER@)
        }
    }

    /// The state after the status lines were brought up to date.
    pub open spec fn update_game_status(self) -> AppView {
        if self.running {
            AppView {
                user_status: USER_STATUS_RUNNING@,
                equipment_status: EQUIPMENT_RUNNING@,
                ..self
            }
        } else {
            AppView {
                user_status: USER_STATUS_STOPPED@,
                equipment_status: EQUIPMENT_STOPPED@,
                ..self
            }
        }
    }

    /// The state after `c` was typed into the input line.
    pub open spec fn handle_char(self, c: char) -> AppView {
        AppView { editor: self.editor.insert(c), ..self }
    }

    /// The state after a backspace in the input line.
    pub open spec fn handle_backspace(self) -> AppView {
        AppView { editor: self.editor.backspace(), ..self }
    }

    /// The state after the cursor of the input line moved left.
    pub open spec fn handle_left(self) -> AppView {
        AppView { editor: self.editor.move_left(), ..self }
    }

    /// The state after the cursor of the input line moved right.
    pub open spec fn handle_right(self) -> AppView {
        AppView { editor: self.editor.move_right(), ..self }
    }

    /// The state with the reveal interval `interval`.
    pub open spec fn set_typing_speed(self, interval: nat) -> AppView {
        AppView { typing: self.typing.with_interval(interval), ..self }
    }

    /// The state after a command of the operator.
    pub open spec fn apply(self, command: Command) -> AppView {
        match command {
            Command::Quit => self.stop_python(),
            Command::Submit => self.send_input(),
            Command::InsertChar(c) => self.handle_char(c),
            Command::Backspace => self.handle_backspace(),
            Command::MoveLeft => self.handle_left(),
            Command::MoveRight => self.handle_right(),
            Command::ScrollUp(n) => self.scroll_up(n as nat),
            Command::ScrollDown(n) => self.scroll_down(n as nat),
            Command::SetSpeed(speed) => self.set_typing_speed(interval_of(speed)),
            Command::SkipTyping => self.skip_typing(),
        }
    }

    /// The state after a key event: that after the command it stands for,
    /// or the same state where it stands for none.
    pub open spec fn handle_key(self, key: KeyInput) -> AppView {
        match command_of(key) {
            Some(command) => self.apply(command),
            None => self,
        }
    }

    /// The first part of a tick, in its fixed order: the events of the
    /// process are taken in, then the animation ticks, then the status lines
    /// are brought up to date.
    pub open spec fn begin_tick(self, messages: Seq<PythonMessage>, now: nat) -> AppView {
        self.absorb_all(messages, now).update_typing_effect(now).update_game_status()
    }

    /// How long the coordinator waits for a key at `now`, in milliseconds:
    /// a short time while a line is being typed, else what is left of the
    /// current tick.
    pub open spec fn poll_timeout(self, now: nat) -> nat {
        if self.typing.is_typing() {
            TYPING_POLL_MS as nat
        } else if elapsed(now, self.last_tick) >= TICK_RATE_MS {
            0
        } else {
            (TICK_RATE_MS - elapsed(now, self.last_tick)) as nat
        }
    }

    /// The state at the end of a tick at `now`: where the current tick has
    /// lasted its full length, a new one begins.
    pub open spec fn end_tick(self, now: nat) -> AppView {
        if elapsed(now, self.last_tick) >= TICK_RATE_MS {
            AppView { last_tick: now, ..self }
        } else {
            self
        }
    }

    /// All lines that there are to show: the scrollback, and behind it what
    /// is revealed of the line being typed.
    pub open spec fn shown_lines(self) -> Seq<Seq<char>> {
        if self.typing.is_typing() {
            self.scrollback.push(self.typing.revealed_text())
        } else {
            self.scrollback
        }
    }

    /// The lines as the output window displays them: the line being typed
    /// ends in the cursor mark.
    pub open spec fn display_lines(self) -> Seq<Seq<char>> {
        if self.typing.is_typing() {
            self.scrollback.push(self.typing.revealed_text() + CURSOR_MARK@)
        } else {
            self.scrollback
        }
    }

    /// The index of the first line in the window.
    pub open spec fn window_start(self) -> int {
        if self.viewport.scroll_offset <= self.total_lines() {
            self.viewport.scroll_offset as int
        } else {
            self.total_lines() as int
        }
    }

    /// The index behind the last line in the window.
    pub open spec fn window_end(self) -> int {
        if self.window_start() + self.viewport.max_visible <= self.total_lines() {
            self.window_start() + self.viewport.max_visible
        } else {
            self.total_lines() as int
        }
    }

    /// The lines in the window.
    pub open spec fn visible_slice(self) -> Seq<Seq<char>> {
        self.shown_lines().subrange(self.window_start(), self.window_end())
    }

    /// The text of the output window: the lines in the window as they are
    /// displayed, one per row.
    pub open spec fn display_text(self) -> Seq<char> {
        join_lines(self.display_lines().subrange(self.window_start(), self.window_end()))
    }

    /// The column of the terminal cursor in an input box that starts at the
    /// column `area_x`: one column for the border, then one per scalar before
    /// the cursor of the input line.
    pub open spec fn cursor_x(self, area_x: int) -> int {
        area_x + self.editor.cursor + 1
    }

    /// Whether the terminal cursor is shown in an input box that starts at
    /// the column `area_x` and is `area_width` columns wide: there is input,
    /// the process runs, and the column lies before the right border.
    pub open spec fn cursor_shown(self, area_x: int, area_width: int) -> bool {
        &&& self.editor.text.len() > 0
        &&& self.running
        &&& self.cursor_x(area_x) < area_x + area_width - 1
        &&& self.cursor_x(area_x) <= u16::MAX
    }

    /// The state after the process was stopped.
    pub open spec fn stop_python(self) -> AppView {
        AppView { running: false, ..self }
    }

    /// The state after scrolling `n` lines towards the top.
    pub open spec fn scroll_up(self, n: nat) -> AppView {
        AppView { viewport: self.viewport.scroll_up(n), ..self }
    }

    /// The state after scrolling `n` lines towards the end.
    pub open spec fn scroll_down(self, n: nat) -> AppView {
        AppView { viewport: self.viewport.scroll_down(n, self.total_lines()), ..self }
    }
}

} // verus!
