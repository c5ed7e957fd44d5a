//! The coordinator: it owns the scrollback, the viewport, the typing engine
//! and the input editor, and is the only one to change them.

use crate::command::{command_for_key, command_of, Action, Command, KeyInput, TypingSpeed};
use crate::history::{history_display, HistoryRing};
use crate::input::InputEditor;
use crate::lines::{
    CONNECTION_LOST, CURSOR_MARK, ECHO_PREFIX, EQUIPMENT_PREPARING, EQUIPMENT_RUNNING,
    EQUIPMENT_STOPPED, ERROR_PREFIX, EXIT_NOTICE, EXIT_PREFIX, EXIT_SUFFIX, LOCATION_PREPARING,
    LOCATION_STARTING, PROGRAM_NAME, QUIT_HINT, START_BANNER, USER_STATUS_PREPARING,
    USER_STATUS_RUNNING, USER_STATUS_STOPPED,
};
use crate::message::{Liveness, PythonMessage};
use crate::model::{AppView, MAX_DISPLAY_LINES, TICK_RATE_MS, TYPING_POLL_MS};
use crate::text::{join_strings, push_decimal_i32, texts};
use crate::typing::{
    Tick, TypingEngine, FAST_INTERVAL_MS, NORMAL_INTERVAL_MS, SLOW_INTERVAL_MS,
};
use crate::viewport::Viewport;
use vstd::prelude::*;
use vstd::string::StringExecFns;

verus! {

/// The front-end's state.
pub struct App {
    output_lines: Vec<String>,
    viewport: Viewport,
    typing: TypingEngine,
    editor: InputEditor,
    is_python_running: bool,
    exit_code: Option<i32>,
    exit_announced: bool,
    program_name: String,
    current_location: String,
    user_status: String,
    equipment_status: String,
    last_tick: u64,
}

impl View for App {
    type V = AppView;

    closed spec fn view(&self) -> AppView {
        AppView {
            scrollback: texts(self.output_lines@),
            viewport: self.viewport@,
            typing: self.typing@,
            editor: self.editor@,
            running: self.is_python_running,
            exit_code: self.exit_code,
            exit_announced: self.exit_announced,
            program_name: self.program_name@,
            current_location: self.current_location@,
            user_status: self.user_status@,
            equipment_status: self.equipment_status@,
            last_tick: self.last_tick as nat,
        }
    }
}

impl App {
    /// The invariants that the parts keep of themselves.
    pub closed spec fn parts_wf(&self) -> bool {
        &&& self.typing.wf()
        &&& self.viewport.wf()
        &&& self.editor.wf()
    }

    /// The parts keep their invariants and the state is well formed.
    pub open spec fn wf(&self) -> bool {
        self.parts_wf() && self@.wf()
    }

    /// A front-end with nothing shown, nothing typed and no process.
    pub fn new() -> (app: App)
        ensures
            app.wf(),
            app@ == AppView::initial(),
    {
        let app = App {
            output_lines: Vec::new(),
            viewport: Viewport::new(MAX_DISPLAY_LINES),
            typing: TypingEngine::new(),
            editor: InputEditor::new(),
            is_python_running: false,
            exit_code: None,
            exit_announced: false,
            program_name: String::from_str(PROGRAM_NAME),
            current_location: String::from_str(LOCATION_PREPARING),
            user_status: String::from_str(USER_STATUS_PREPARING),
            equipment_status: String::from_str(EQUIPMENT_PREPARING),
            last_tick: 0,
        };
        assert(app@.scrollback =~= AppView::initial().scrollback);
        app
    }

    fn ensure_auto_scroll(&mut self)
        requires
            old(self).parts_wf(),
        ensures
            final(self).parts_wf(),
            final(self)@ == old(self)@.refollow(),
    {
        self.viewport.follow(self.output_lines.len(), self.typing.is_typing());
    }

    /// Appends `message` to the scrollback at once, without animation.
    pub fn add_system_message(&mut self, message: &str)
        requires
            old(self).wf(),
        ensures
            final(self).wf(),
            final(self)@ == old(self)@.add_system_message(message@),
    {
        self.output_lines.push(String::from_str(message));
        assert(texts(self.output_lines@) =~= texts(old(self).output_lines@).push(message@));
        self.ensure_auto_scroll();
    }

    /// Queues `text` for the typing animation; an idle engine starts on it
    /// at `now`.
    pub fn queue_typing_text(&mut self, text: String, now: u64)
        requires
            old(self).wf(),
        ensures
            final(self).wf(),
            final(self)@ == old(self)@.queue_typing_text(text@, now as nat),
    {
        self.typing.enqueue(text, now);
        self.ensure_auto_scroll();
    }

    /// One tick of the typing animation at `now`. Says whether anything
    /// changed: a scalar was revealed, or a line moved to the scrollback.
    pub fn update_typing_effect(&mut self, now: u64) -> (changed: bool)
        requires
            old(self).wf(),
        ensures
            final(self).wf(),
            final(self)@ == old(self)@.update_typing_effect(now as nat),
            changed == old(self)@.typing.due(now as nat),
    {
        match self.typing.tick(now) {
            Tick::Waiting => {
                assert(texts(self.output_lines@) =~= texts(old(self).output_lines@)
                    + old(self)@.typing.emitted(now as nat));
                false
            },
            Tick::Revealed => {
                assert(texts(self.output_lines@) =~= texts(old(self).output_lines@)
                    + old(self)@.typing.emitted(now as nat));
                self.ensure_auto_scroll();
                true
            },
            Tick::Completed(line) => {
                self.output_lines.push(line);
                assert(texts(self.output_lines@) =~= texts(old(self).output_lines@)
                    + old(self)@.typing.emitted(now as nat));
                self.ensure_auto_scroll();
                true
            },
        }
    }

    /// Ends the animation: the line being typed and all that wait go to the
    /// scrollback whole, in the order in which they arrived.
    pub fn skip_typing(&mut self)
        requires
            old(self).wf(),
        ensures
            final(self).wf(),
            final(self)@ == old(self)@.skip_typing(),
    {
        let mut flushed = self.typing.skip();
        let ghost moved = flushed@;
        self.output_lines.append(&mut flushed);
        assert(texts(self.output_lines@) =~= texts(old(self).output_lines@) + texts(moved));
        self.ensure_auto_scroll();
    }

    /// Scrolls one line towards the top.
    pub fn scroll_up(&mut self)
        requires
            old(self).wf(),
        ensures
            final(self).wf(),
            final(self)@ == old(self)@.scroll_up(1),
    {
        self.scroll_up_by(1);
    }

    /// Scrolls `n` lines towards the top and stops there. From now on new
    /// output leaves the window where it is.
    pub fn scroll_up_by(&mut self, n: usize)
        requires
            old(self).wf(),
        ensures
            final(self).wf(),
            final(self)@ == old(self)@.scroll_up(n as nat),
    {
        self.viewport.scroll_up(n);
    }

    /// Scrolls one line towards the end.
    pub fn scroll_down(&mut self)
        requires
            old(self).wf(),
        ensures
            final(self).wf(),
            final(self)@ == old(self)@.scroll_down(1),
    {
        self.scroll_down_by(1);
    }

    /// Scrolls `n` lines towards the end and stops at the computed bottom.
    /// Once there, the window follows new output again.
    pub fn scroll_down_by(&mut self, n: usize)
        requires
            old(self).wf(),
        ensures
            final(self).wf(),
            final(self)@ == old(self)@.scroll_down(n as nat),
    {
        self.viewport.scroll_down(n, self.output_lines.len(), self.typing.is_typing());
    }

    /// Takes in the events that were drained from the bridge, in order.
    /// Output is queued for typing at `now`; error lines and exits go to the
    /// scrollback at once and leave the typing engine alone.
    pub fn update_output(&mut self, messages: Vec<PythonMessage>, now: u64)
        requires
            old(self).wf(),
        ensures
            final(self).wf(),
            final(self)@ == old(self)@.absorb_all(messages@, now as nat),
    {
        let mut i: usize = 0;
        while i < messages.len()
            invariant
                i <= messages.len(),
                self.wf(),
                self@ == old(self)@.absorb_all(messages@.take(i as int), now as nat),
            decreases messages.len() - i,
        {
            proof {
                assert(messages@.take(i as int + 1).drop_last() =~= messages@.take(i as int));
                assert(messages@.take(i as int + 1).last() == messages@[i as int]);
            }
            match &messages[i] {
                PythonMessage::Output(line) => {
                    self.queue_typing_text(line.clone(), now);
                },
                PythonMessage::Error(line) => {
                    let mut shown = String::from_str(ERROR_PREFIX);
                    shown.append(line.as_str());
                    self.add_system_message(shown.as_str());
                },
                PythonMessage::ProcessExit(code) => {
                    let mut shown = String::from_str(EXIT_PREFIX);
                    push_decimal_i32(&mut shown, *code);
                    shown.append(EXIT_SUFFIX);
                    self.add_system_message(shown.as_str());
                    self.is_python_running = false;
                    self.exit_code = Some(*code);
                },
            }
            i += 1;
        }
        proof {
            assert(messages@.take(messages.len() as int) =~= messages@);
        }
    }

    /// Submits the input line. An input that trimming would not empty is
    /// recorded in the history and echoed in the scrollback; while the
    /// process runs it is returned for delivery. Once the process has
    /// stopped nothing is returned, so nothing more is sent.
    pub fn send_input(&mut self) -> (outgoing: Option<String>)
        requires
            old(self).wf(),
        ensures
            final(self).wf(),
            final(self)@ == old(self)@.send_input(),
            match outgoing {
                Some(text) => old(self)@.outgoing() == Some(text@),
                None => old(self)@.outgoing().is_none(),
            },
    {
        match self.editor.submit() {
            Some(input) => {
                let mut echo = String::from_str(ECHO_PREFIX);
                echo.append(input.as_str());
                self.add_system_message(echo.as_str());
                if self.is_python_running {
                    Some(input)
                } else {
                    None
                }
            },
            None => None,
        }
    }

    /// Takes note that an input could not be delivered: the scrollback says
    /// that the connection is lost, and the process counts as stopped.
    pub fn connection_lost(&mut self)
        requires
            old(self).wf(),
        ensures
            final(self).wf(),
            final(self)@ == old(self)@.connection_lost(),
    {
        self.add_system_message(CONNECTION_LOST);
        self.is_python_running = false;
    }

    /// Takes note of a look at the process. The first time it is found to
    /// have ended, the exit notice and the hint how to quit are appended.
    pub fn check_liveness(&mut self, liveness: Liveness)
        requires
            old(self).wf(),
        ensures
            final(self).wf(),
            final(self)@ == old(self)@.check_liveness(liveness),
    {
        match liveness {
            Liveness::Running => {},
            Liveness::Exited(code) => {
                if !self.exit_announced {
                    self.add_system_message(EXIT_NOTICE);
                    self.add_system_message(QUIT_HINT);
                    self.exit_announced = true;
                }
                self.is_python_running = false;
                self.exit_code = Some(code);
            },
        }
    }

    /// Takes note that the process was started.
    pub fn start_python(&mut self)
        requires
            old(self).wf(),
        ensures
            final(self).wf(),
            final(self)@ == old(self)@.start_python(),
    {
        self.add_system_message(START_BANNER);
        self.is_python_running = true;
        self.current_location = String::from_str(LOCATION_STARTING);
    }

    /// Takes note that the process was stopped. A second call changes
    /// nothing.
    pub fn stop_python(&mut self)
        requires
            old(self).wf(),
        ensures
            final(self).wf(),
            final(self)@ == old(self)@.stop_python(),
    {
        self.is_python_running = false;
    }

    /// Brings the status lines up to date with whether the process runs.
    pub fn update_game_status(&mut self)
        requires
            old(self).wf(),
        ensures
            final(self).wf(),
            final(self)@ == old(self)@.update_game_status(),
    {
        if self.is_python_running {
            self.user_status = String::from_str(USER_STATUS_RUNNING);
            self.equipment_status = String::from_str(EQUIPMENT_RUNNING);
        } else {
            self.user_status = String::from_str(USER_STATUS_STOPPED);
            self.equipment_status = String::from_str(EQUIPMENT_STOPPED);
        }
    }

    /// Types `c` into the input line at the cursor, and moves the cursor
    /// behind it. With the cursor beyond the text nothing changes.
    pub fn handle_char(&mut self, c: char)
        ensures
            final(self)@ == old(self)@.handle_char(c),
            old(self).wf() ==> final(self).wf(),
    {
        self.editor.insert(c);
    }

    /// Removes the scalar before the cursor of the input line. With nothing
    /// before the cursor, or the cursor beyond the text, nothing changes.
    pub fn handle_backspace(&mut self)
        ensures
            final(self)@ == old(self)@.handle_backspace(),
            old(self).wf() ==> final(self).wf(),
    {
        self.editor.backspace();
    }

    /// Moves the cursor of the input line one scalar left; at the start it
    /// stays.
    pub fn handle_left(&mut self)
        ensures
            final(self)@ == old(self)@.handle_left(),
            old(self).wf() ==> final(self).wf(),
    {
        self.editor.move_left();
    }

    /// Moves the cursor of the input line one scalar right; at the end, or
    /// beyond it, it stays.
    pub fn handle_right(&mut self)
        ensures
            final(self)@ == old(self)@.handle_right(),
            old(self).wf() ==> final(self).wf(),
    {
        self.editor.move_right();
    }

    /// From now on one scalar is revealed every 10 ms.
    pub fn set_typing_speed_fast(&mut self)
        requires
            old(self).wf(),
        ensures
            final(self).wf(),
            final(self)@ == old(self)@.set_typing_speed(FAST_INTERVAL_MS as nat),
    {
        self.typing.set_speed(FAST_INTERVAL_MS);
    }

    /// From now on one scalar is revealed every 30 ms.
    pub fn set_typing_speed_normal(&mut self)
        requires
            old(self).wf(),
        ensures
            final(self).wf(),
            final(self)@ == old(self)@.set_typing_speed(NORMAL_INTERVAL_MS as nat),
    {
        self.typing.set_speed(NORMAL_INTERVAL_MS);
    }

    /// From now on one scalar is revealed every 80 ms.
    pub fn set_typing_speed_slow(&mut self)
        requires
            old(self).wf(),
        ensures
            final(self).wf(),
            final(self)@ == old(self)@.set_typing_speed(SLOW_INTERVAL_MS as nat),
    {
        self.typing.set_speed(SLOW_INTERVAL_MS);
    }

    /// Carries out a command of the operator and says what is left for the
    /// coordinator to do: to deliver a submitted input, to quit, or nothing.
    pub fn handle_command(&mut self, command: Command) -> (action: Action)
        requires
            old(self).wf(),
        ensures
            final(self).wf(),
            final(self)@ == old(self)@.apply(command),
            match action {
                Action::Continue => command !is Quit && (command is Submit ==> old(
                    self,
                )@.outgoing().is_none()),
                Action::Send(text) => command is Submit && old(self)@.outgoing() == Some(text@),
                Action::Quit => command is Quit,
            },
    {
        match command {
            Command::Quit => {
                self.stop_python();
                Action::Quit
            },
            Command::Submit => {
                match self.send_input() {
                    Some(text) => Action::Send(text),
                    None => Action::Continue,
                }
            },
            Command::InsertChar(c) => {
                self.handle_char(c);
                Action::Continue
            },
            Command::Backspace => {
                self.handle_backspace();
                Action::Continue
            },
            Command::MoveLeft => {
                self.handle_left();
                Action::Continue
            },
            Command::MoveRight => {
                self.handle_right();
                Action::Continue
            },
            Command::ScrollUp(n) => {
                self.scroll_up_by(n);
                Action::Continue
            },
            Command::ScrollDown(n) => {
                self.scroll_down_by(n);
                Action::Continue
            },
            Command::SetSpeed(speed) => {
                match speed {
                    TypingSpeed::Fast => self.set_typing_speed_fast(),
                    TypingSpeed::Normal => self.set_typing_speed_normal(),
                    TypingSpeed::Slow => self.set_typing_speed_slow(),
                }
                Action::Continue
            },
            Command::SkipTyping => {
                self.skip_typing();
                Action::Continue
            },
        }
    }

    /// Carries out the command that the key event `key` stands for, if any.
    pub fn handle_key(&mut self, key: &KeyInput) -> (action: Action)
        requires
            old(self).wf(),
        ensures
            final(self).wf(),
            final(self)@ == old(self)@.handle_key(*key),
            match (command_of(*key), action) {
                (None, Action::Continue) => true,
                (Some(command), Action::Continue) => command !is Quit && (command is Submit
                    ==> old(self)@.outgoing().is_none()),
                (Some(command), Action::Send(text)) => command is Submit && old(
                    self,
                )@.outgoing() == Some(text@),
                (Some(command), Action::Quit) => command is Quit,
                _ => false,
            },
    {
        match command_for_key(key) {
            Some(command) => self.handle_command(command),
            None => Action::Continue,
        }
    }

    /// The first part of a tick at `now`, in its fixed order: takes in the
    /// events drained from the bridge, ticks the animation, and brings the
    /// status lines up to date. Says whether the animation changed anything.
    pub fn begin_tick(&mut self, messages: Vec<PythonMessage>, now: u64) -> (changed: bool)
        requires
            old(self).wf(),
        ensures
            final(self).wf(),
            final(self)@ == old(self)@.begin_tick(messages@, now as nat),
            changed == old(self)@.absorb_all(messages@, now as nat).typing.due(now as nat),
    {
        self.update_output(messages, now);
        let changed = self.update_typing_effect(now);
        self.update_game_status();
        changed
    }

    /// How long to wait for a key at `now`, in milliseconds: 25 while a line
    /// is being typed, to keep the animation smooth; else what is left of
    /// the current tick of 50.
    pub fn poll_timeout_ms(&self, now: u64) -> (timeout: u64)
        ensures
            timeout == self@.poll_timeout(now as nat),
    {
        if self.typing.is_typing() {
            TYPING_POLL_MS
        } else {
            let since: u64 = if now >= self.last_tick {
                now - self.last_tick
            } else {
                0
            };
            if since >= TICK_RATE_MS {
                0
            } else {
                TICK_RATE_MS - since
            }
        }
    }

    /// Ends a tick at `now`: where the current tick has lasted 50 ms, a new
    /// one begins.
    pub fn end_tick(&mut self, now: u64)
        requires
            old(self).wf(),
        ensures
            final(self).wf(),
            final(self)@ == old(self)@.end_tick(now as nat),
    {
        let since: u64 = if now >= self.last_tick {
            now - self.last_tick
        } else {
            0
        };
        if since >= TICK_RATE_MS {
            self.last_tick = now;
        }
    }

    /// Whether a line is being typed.
    pub fn is_typing(&self) -> (typing: bool)
        ensures
            typing == self@.typing.is_typing(),
    {
        self.typing.is_typing()
    }

    /// Whether lines wait behind the one being typed.
    pub fn has_pending(&self) -> (pending: bool)
        ensures
            pending == (self@.typing.pending.len() > 0),
    {
        self.typing.has_pending()
    }

    /// Whether the bridged process is taken to be running.
    pub fn is_python_running(&self) -> (running: bool)
        ensures
            running == self@.running,
    {
        self.is_python_running
    }

    /// The exit code of the process, once it is known.
    pub fn exit_code(&self) -> (code: Option<i32>)
        ensures
            code == self@.exit_code,
    {
        self.exit_code
    }

    /// The index of the first line in the window.
    pub fn scroll_offset(&self) -> (offset: usize)
        ensures
            offset == self@.viewport.scroll_offset,
    {
        self.viewport.scroll_offset()
    }

    /// How many lines the window shows.
    pub fn max_display_lines(&self) -> (lines: usize)
        ensures
            lines == self@.viewport.max_visible,
    {
        self.viewport.max_display_lines()
    }

    /// Whether the user has scrolled away, so that the window stays put.
    pub fn is_manually_scrolled(&self) -> (manual: bool)
        ensures
            manual == self@.viewport.manual_scroll,
    {
        self.viewport.is_manually_scrolled()
    }

    /// Whether the window is at the computed bottom.
    pub fn is_at_bottom(&self) -> (at_bottom: bool)
        requires
            self.wf(),
        ensures
            at_bottom == (self@.viewport.scroll_offset == self@.viewport.bottom(
                self@.total_lines(),
            )),
    {
        self.viewport.is_at_bottom(self.output_lines.len(), self.typing.is_typing())
    }

    /// The scrollback.
    pub fn output_lines(&self) -> (lines: &Vec<String>)
        ensures
            texts(lines@) == self@.scrollback,
    {
        &self.output_lines
    }

    /// What is revealed of the line being typed.
    pub fn typing_text(&self) -> (text: &String)
        requires
            self.wf(),
        ensures
            text@ == self@.typing.revealed_text(),
    {
        self.typing.typing_text()
    }

    /// How many scalars of the line being typed are revealed.
    pub fn typing_index(&self) -> (index: usize)
        ensures
            index == match self@.typing.active {
                Some(job) => job.revealed,
                None => 0,
            },
    {
        self.typing.typing_index()
    }

    /// The reveal interval in milliseconds.
    pub fn typing_speed(&self) -> (interval: u64)
        ensures
            interval == self@.typing.interval,
    {
        self.typing.typing_speed()
    }

    /// How many lines wait behind the one being typed.
    pub fn pending_len(&self) -> (n: usize)
        ensures
            n == self@.typing.pending.len(),
    {
        self.typing.pending_len()
    }

    /// The input line.
    pub fn current_input(&self) -> (text: String)
        ensures
            text@ == self@.editor.text,
    {
        self.editor.current_input()
    }

    /// How many scalars of the input line lie before its cursor.
    pub fn cursor_position(&self) -> (cursor: usize)
        ensures
            cursor == self@.editor.cursor,
    {
        self.editor.cursor_position()
    }

    /// The ring of submitted inputs.
    pub fn input_history(&self) -> (ring: &HistoryRing)
        ensures
            ring@ == self@.editor.history,
    {
        self.editor.input_history()
    }

    /// The name of the program in the header.
    pub fn program_name(&self) -> (name: &String)
        ensures
            name@ == self@.program_name,
    {
        &self.program_name
    }

    /// Where the session stands, in the header.
    pub fn current_location(&self) -> (location: &String)
        ensures
            location@ == self@.current_location,
    {
        &self.current_location
    }

    /// The status line of the user.
    pub fn user_status(&self) -> (status: &String)
        ensures
            status@ == self@.user_status,
    {
        &self.user_status
    }

    /// The status line of the equipment.
    pub fn equipment_status(&self) -> (status: &String)
        ensures
            status@ == self@.equipment_status,
    {
        &self.equipment_status
    }

    /// How many lines there are to show: the scrollback, and the line being
    /// typed while a job is active. The count has to fit the machine word.
    pub fn get_total_lines(&self) -> (total: usize)
        requires
            self@.total_lines() <= usize::MAX,
        ensures
            total == self@.total_lines(),
    {
        let mut total: usize = self.output_lines.len();
        if self.typing.is_typing() {
            total += 1;
        }
        total
    }

    /// Whether a scrollbar is drawn: the lines to show, and one more while
    /// lines wait to be typed, are more than the window shows.
    pub fn needs_scrollbar(&self) -> (needed: bool)
        ensures
            needed == self@.needs_scrollbar(),
    {
        let stored: usize = self.output_lines.len();
        let max: usize = self.viewport.max_display_lines();
        let mut extra: usize = 0;
        if self.typing.is_typing() {
            extra += 1;
        }
        if self.typing.has_pending() {
            extra += 1;
        }
        stored > max || max - stored < extra
    }

    fn window_lines(&self, marked: bool) -> (lines: Vec<String>)
        requires
            self.wf(),
        ensures
            texts(lines@) == (if marked {
                self@.display_lines()
            } else {
                self@.shown_lines()
            }).subrange(self@.window_start(), self@.window_end()),
    {
        let stored: usize = self.output_lines.len();
        let live: bool = self.typing.is_typing();
        let start: usize = self.viewport.scroll_offset();
        let max: usize = self.viewport.max_display_lines();
        assert(start <= stored);
        let stored_end: usize = if stored - start > max {
            start + max
        } else {
            stored
        };
        let ghost all = if marked {
            self@.display_lines()
        } else {
            self@.shown_lines()
        };
        let mut lines: Vec<String> = Vec::new();
        let mut i: usize = start;
        while i < stored_end
            invariant
                start <= i <= stored_end <= stored,
                stored == self.output_lines@.len(),
                texts(lines@) =~= texts(self.output_lines@).subrange(start as int, i as int),
            decreases stored_end - i,
        {
            let ghost copied = lines@;
            lines.push(self.output_lines[i].clone());
            assert(texts(lines@) =~= texts(copied).push(self.output_lines@[i as int]@));
            i += 1;
        }
        let ghost copied = lines@;
        assert(self@.window_start() == start);
        if live && stored - start < max {
            let mut line = self.typing.typing_text().clone();
            if marked {
                line.append(CURSOR_MARK);
            }
            lines.push(line);
            assert(texts(lines@) =~= texts(copied).push(line@));
            assert(self@.window_end() == stored + 1);
        } else {
            assert(self@.window_end() == stored_end);
        }
        assert(texts(lines@) =~= all.subrange(self@.window_start(), self@.window_end()));
        lines
    }

    /// The lines in the window: those of the scrollback from the scroll
    /// offset on, as many as the window shows, and behind the last line of
    /// the scrollback what is revealed of the line being typed.
    pub fn visible_slice(&self) -> (lines: Vec<String>)
        requires
            self.wf(),
        ensures
            texts(lines@) == self@.visible_slice(),
    {
        self.window_lines(false)
    }

    /// The text of the output window: the lines in the window, one per row,
    /// the line being typed with the cursor mark behind it.
    pub fn get_display_text(&self) -> (text: String)
        requires
            self.wf(),
        ensures
            text@ == self@.display_text(),
    {
        let lines = self.window_lines(true);
        join_strings(&lines)
    }

    /// The text of the panel of recent inputs: the five newest, newest
    /// first.
    pub fn get_input_history_display(&self) -> (text: String)
        ensures
            text@ == history_display(self@.editor.history),
    {
        self.editor.input_history().display()
    }

    /// The column for the terminal cursor in an input box that starts at
    /// column `area_x` and is `area_width` columns wide, or none where the
    /// cursor is not to be shown.
    pub fn input_cursor_column(&self, area_x: u16, area_width: u16) -> (column: Option<u16>)
        ensures
            match column {
                Some(x) => self@.cursor_shown(area_x as int, area_width as int) && x
                    == self@.cursor_x(area_x as int),
                None => !self@.cursor_shown(area_x as int, area_width as int),
            },
    {
        if self.editor.is_empty() || !self.is_python_running {
            return None;
        }
        let cursor: usize = self.editor.cursor_position();
        if area_width < 2 || cursor >= (area_width - 2) as usize {
            return None;
        }
        let column: u32 = area_x as u32 + cursor as u32 + 1;
        if column > u16::MAX as u32 {
            None
        } else {
            Some(column as u16)
        }
    }
}

} // verus!
