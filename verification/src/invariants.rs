//! What holds of the front-end whatever happens to it: every event keeps
//! the state well formed, the scroll offset stays within its range, and a
//! window that the user scrolled stays put until the user scrolls it back to
//! the bottom.

use crate::command::{command_of, Command, KeyInput};
use crate::input::{lemma_edit_keeps_cursor_in_text, Edit};
use crate::lines::{
    echo_line, error_line, exit_line, CONNECTION_LOST, EXIT_NOTICE, QUIT_HINT, START_BANNER,
};
use crate::message::{Liveness, PythonMessage};
use crate::model::AppView;
use crate::typing::{lemma_step_conserves_lines, Step};
use vstd::prelude::*;

verus! {

/// One thing that can happen to the front-end.
pub enum Event {
    /// Events of the process are taken in at a time.
    Output(Seq<PythonMessage>, nat),
    /// A line is appended to the scrollback.
    Line(Seq<char>),
    /// A line is queued for typing at a time.
    Queue(Seq<char>, nat),
    /// The animation ticks at a time.
    Tick(nat),
    /// The operator gives a command.
    Command(Command),
    /// The operator hits a key.
    Key(KeyInput),
    /// An input could not be delivered.
    ConnectionLost,
    /// The process is looked at.
    Liveness(Liveness),
    /// The process is started.
    Start,
    /// The process is stopped.
    Stop,
    /// The status lines are brought up to date.
    Status,
    /// A tick ends at a time.
    EndTick(nat),
}

impl Event {
    /// The command that the event carries out, if it is one of the operator.
    pub open spec fn command(self) -> Option<Command> {
        match self {
            Event::Command(command) => Some(command),
            Event::Key(key) => command_of(key),
            _ => None,
        }
    }

    /// Whether the event is the operator scrolling towards the top.
    pub open spec fn scrolls_up(self) -> bool {
        self.command() matches Some(Command::ScrollUp(_))
    }

    /// Whether the event is the operator scrolling towards the end.
    pub open spec fn scrolls_down(self) -> bool {
        self.command() matches Some(Command::ScrollDown(_))
    }
}

impl AppView {
    /// The state after one event.
    pub open spec fn after(self, event: Event) -> AppView {
        match event {
            Event::Output(messages, now) => self.absorb_all(messages, now),
            Event::Line(line) => self.add_system_message(line),
            Event::Queue(line, now) => self.queue_typing_text(line, now),
            Event::Tick(now) => self.update_typing_effect(now),
            Event::Command(command) => self.apply(command),
            Event::Key(key) => self.handle_key(key),
            Event::ConnectionLost => self.connection_lost(),
            Event::Liveness(liveness) => self.check_liveness(liveness),
            Event::Start => self.start_python(),
            Event::Stop => self.stop_python(),
            Event::Status => self.update_game_status(),
            Event::EndTick(now) => self.end_tick(now),
        }
    }

    /// The state after the events `events`, in order.
    pub open spec fn after_all(self, events: Seq<Event>) -> AppView
        decreases events.len(),
    {
        if events.len() == 0 {
            self
        } else {
            self.after_all(events.drop_last()).after(events.last())
        }
    }
}

/// A new line in the scrollback keeps the state well formed, adds one to
/// the lines to show, and leaves a window that the user scrolled as it is.
pub proof fn lemma_add_system_message(s: AppView, line: Seq<char>)
    requires
        s.wf(),
    ensures
        s.add_system_message(line).wf(),
        s.add_system_message(line).total_lines() == s.total_lines() + 1,
        s.add_system_message(line).scrollback == s.scrollback.push(line),
        s.add_system_message(line).typing == s.typing,
        s.viewport.manual_scroll ==> s.add_system_message(line).viewport == s.viewport,
{
}

/// A line queued for typing keeps the state well formed, takes no line
/// away, and leaves a window that the user scrolled as it is.
pub proof fn lemma_queue_typing_text(s: AppView, line: Seq<char>, now: nat)
    requires
        s.wf(),
    ensures
        s.queue_typing_text(line, now).wf(),
        s.queue_typing_text(line, now).total_lines() >= s.total_lines(),
        s.queue_typing_text(line, now).scrollback == s.scrollback,
        s.viewport.manual_scroll ==> s.queue_typing_text(line, now).viewport == s.viewport,
{
    lemma_step_conserves_lines(s.typing, Step::Enqueue(line, now));
}

/// A tick of the animation keeps the state well formed, takes no line away,
/// and leaves a window that the user scrolled as it is.
pub proof fn lemma_update_typing_effect(s: AppView, now: nat)
    requires
        s.wf(),
    ensures
        s.update_typing_effect(now).wf(),
        s.update_typing_effect(now).total_lines() >= s.total_lines(),
        s.viewport.manual_scroll ==> s.update_typing_effect(now).viewport == s.viewport,
{
    lemma_step_conserves_lines(s.typing, Step::Tick(now));
}

/// A skip of the animation keeps the state well formed and leaves a window
/// that the user scrolled as it is. On one line being typed and `n` that
/// wait, the scrollback grows by exactly these `n + 1` lines: the whole line
/// that was being typed, then the waiting ones in the order of arrival.
pub proof fn lemma_skip_typing(s: AppView)
    requires
        s.wf(),
    ensures
        s.skip_typing().wf(),
        s.skip_typing().total_lines() >= s.total_lines(),
        s.viewport.manual_scroll ==> s.skip_typing().viewport == s.viewport,
        !s.skip_typing().typing.is_typing(),
        s.skip_typing().typing.pending.len() == 0,
        s.typing.active is Some ==> s.skip_typing().scrollback == s.scrollback + (seq![
            s.typing.active->0.target,
        ] + s.typing.pending),
        s.typing.active is Some ==> s.skip_typing().scrollback.len() == s.scrollback.len()
            + s.typing.pending.len() + 1,
        s.typing.active is None ==> s.skip_typing().scrollback == s.scrollback,
{
    lemma_step_conserves_lines(s.typing, Step::Skip);
    if s.typing.active is None {
        assert(s.scrollback + s.typing.flushed() =~= s.scrollback);
    }
}

/// One event of the process keeps the state well formed, takes no line
/// away, and leaves a window that the user scrolled as it is.
pub proof fn lemma_absorb(s: AppView, message: PythonMessage, now: nat)
    requires
        s.wf(),
    ensures
        s.absorb(message, now).wf(),
        s.absorb(message, now).total_lines() >= s.total_lines(),
        s.viewport.manual_scroll ==> s.absorb(message, now).viewport == s.viewport,
{
    match message {
        PythonMessage::Output(line) => {
            lemma_queue_typing_text(s, line@, now);
        },
        PythonMessage::Error(line) => {
            lemma_add_system_message(s, error_line(line@));
        },
        PythonMessage::ProcessExit(code) => {
            lemma_add_system_message(s, exit_line(code as int));
        },
    }
}

/// Any run of events of the process keeps the state well formed, takes no
/// line away, and leaves a window that the user scrolled as it is.
pub proof fn lemma_absorb_all(s: AppView, messages: Seq<PythonMessage>, now: nat)
    requires
        s.wf(),
    ensures
        s.absorb_all(messages, now).wf(),
        s.absorb_all(messages, now).total_lines() >= s.total_lines(),
        s.viewport.manual_scroll ==> s.absorb_all(messages, now).viewport == s.viewport,
    decreases messages.len(),
{
    if messages.len() > 0 {
        lemma_absorb_all(s, messages.drop_last(), now);
        lemma_absorb(s.absorb_all(messages.drop_last(), now), messages.last(), now);
    }
}

/// A submit keeps the state well formed and leaves a window that the user
/// scrolled as it is.
pub proof fn lemma_send_input(s: AppView)
    requires
        s.wf(),
    ensures
        s.send_input().wf(),
        s.viewport.manual_scroll ==> s.send_input().viewport == s.viewport,
{
    lemma_edit_keeps_cursor_in_text(s.editor, Edit::Submit);
    let submitted = AppView { editor: s.editor.submit(), ..s };
    match s.editor.submitted() {
        Some(text) => {
            lemma_add_system_message(submitted, echo_line(text));
        },
        None => {},
    }
}

/// A command of the operator keeps the state well formed. Unless it
/// scrolls, it leaves a window that the user scrolled as it is.
pub proof fn lemma_apply(s: AppView, command: Command)
    requires
        s.wf(),
    ensures
        s.apply(command).wf(),
        s.viewport.manual_scroll && !(command is ScrollUp) && !(command is ScrollDown)
            ==> s.apply(command).viewport == s.viewport,
        command is ScrollUp ==> s.apply(command).viewport.manual_scroll,
        command is ScrollDown ==> (s.apply(command).viewport.manual_scroll <==> s.viewport.manual_scroll
            && s.apply(command).viewport.scroll_offset < s.apply(command).viewport.bottom(
            s.apply(command).total_lines(),
        )),
{
    match command {
        Command::Submit => {
            lemma_send_input(s);
        },
        Command::InsertChar(c) => {
            lemma_edit_keeps_cursor_in_text(s.editor, Edit::Insert(c));
        },
        Command::Backspace => {
            lemma_edit_keeps_cursor_in_text(s.editor, Edit::Backspace);
        },
        Command::MoveLeft => {
            lemma_edit_keeps_cursor_in_text(s.editor, Edit::Left);
        },
        Command::MoveRight => {
            lemma_edit_keeps_cursor_in_text(s.editor, Edit::Right);
        },
        Command::SkipTyping => {
            lemma_skip_typing(s);
        },
        _ => {},
    }
}

/// Every event keeps the state well formed. Unless it is the operator
/// scrolling, it leaves a window that the user scrolled as it is. Scrolling
/// up ends following; scrolling down leaves the window scrolled by hand
/// exactly when it was so before and has not arrived at the computed bottom.
pub proof fn lemma_event_keeps_wf(s: AppView, event: Event)
    requires
        s.wf(),
    ensures
        s.after(event).wf(),
        s.viewport.manual_scroll && !event.scrolls_up() && !event.scrolls_down() ==> s.after(
            event,
        ).viewport == s.viewport,
        event.scrolls_up() ==> s.after(event).viewport.manual_scroll,
        event.scrolls_down() ==> (s.after(event).viewport.manual_scroll <==> s.viewport.manual_scroll
            && s.after(event).viewport.scroll_offset < s.after(event).viewport.bottom(
            s.after(event).total_lines(),
        )),
{
    match event {
        Event::Output(messages, now) => {
            lemma_absorb_all(s, messages, now);
        },
        Event::Line(line) => {
            lemma_add_system_message(s, line);
        },
        Event::Queue(line, now) => {
            lemma_queue_typing_text(s, line, now);
        },
        Event::Tick(now) => {
            lemma_update_typing_effect(s, now);
        },
        Event::Command(command) => {
            lemma_apply(s, command);
        },
        Event::Key(key) => {
            match command_of(key) {
                Some(command) => {
                    lemma_apply(s, command);
                },
                None => {},
            }
        },
        Event::ConnectionLost => {
            lemma_add_system_message(s, CONNECTION_LOST@);
        },
        Event::Liveness(liveness) => {
            lemma_add_system_message(s, EXIT_NOTICE@);
            lemma_add_system_message(s.add_system_message(EXIT_NOTICE@), QUIT_HINT@);
        },
        Event::Start => {
            lemma_add_system_message(s, START_BANNER@);
        },
        _ => {},
    }
}

/// Whatever happens, in whatever order, the state stays well formed, and so
/// the scroll offset lies between the top and the computed bottom: at most
/// the number of lines to show less the lines that the window holds, and
/// zero where the window holds them all.
pub proof fn lemma_scroll_offset_always_within(s: AppView, events: Seq<Event>)
    requires
        s.wf(),
    ensures
        s.after_all(events).wf(),
        0 <= s.after_all(events).viewport.scroll_offset <= s.after_all(events).viewport.bottom(
            s.after_all(events).total_lines(),
        ),
        s.after_all(events).total_lines() <= s.after_all(events).viewport.max_visible
            ==> s.after_all(events).viewport.scroll_offset == 0,
        s.after_all(events).total_lines() > s.after_all(events).viewport.max_visible
            ==> s.after_all(events).viewport.scroll_offset <= s.after_all(events).total_lines()
            - s.after_all(events).viewport.max_visible,
    decreases events.len(),
{
    if events.len() > 0 {
        lemma_scroll_offset_always_within(s, events.drop_last());
        lemma_event_keeps_wf(s.after_all(events.drop_last()), events.last());
    }
}

/// Scrolling back is sticky. While the window is scrolled by hand, no event
/// but a scroll of the operator moves it, whatever output arrives; and
/// manual scrolling ends only by scrolling down, and then exactly when the
/// window arrives at the computed bottom.
pub proof fn lemma_scrolled_window_stays(s: AppView, event: Event)
    requires
        s.wf(),
        s.viewport.manual_scroll,
    ensures
        !event.scrolls_up() && !event.scrolls_down() ==> s.after(event).viewport == s.viewport,
        !s.after(event).viewport.manual_scroll ==> event.scrolls_down() && s.after(
            event,
        ).viewport.scroll_offset == s.after(event).viewport.bottom(s.after(event).total_lines()),
        event.scrolls_down() ==> (s.after(event).viewport.manual_scroll <==> s.after(
            event,
        ).viewport.scroll_offset < s.after(event).viewport.bottom(s.after(event).total_lines())),
{
    lemma_event_keeps_wf(s, event);
}

/// After the operator scrolled up, output that arrives does not move the
/// window: neither lines appended at once, nor events of the process, nor
/// ticks of the animation change the scroll offset.
pub proof fn lemma_output_after_scroll_up(
    s: AppView,
    n: nat,
    line: Seq<char>,
    messages: Seq<PythonMessage>,
    now: nat,
)
    requires
        s.wf(),
    ensures
        s.scroll_up(n).wf(),
        s.scroll_up(n).add_system_message(line).viewport == s.scroll_up(n).viewport,
        s.scroll_up(n).absorb_all(messages, now).viewport == s.scroll_up(n).viewport,
        s.scroll_up(n).update_typing_effect(now).viewport == s.scroll_up(n).viewport,
        s.scroll_up(n).skip_typing().viewport == s.scroll_up(n).viewport,
{
    let up = s.scroll_up(n);
    lemma_add_system_message(up, line);
    lemma_absorb_all(up, messages, now);
    lemma_update_typing_effect(up, now);
    lemma_skip_typing(up);
}

/// The front-end is well formed at its start, and so after any events.
pub proof fn lemma_initial_is_wf(events: Seq<Event>)
    ensures
        AppView::initial().wf(),
        AppView::initial().after_all(events).wf(),
{
    lemma_scroll_offset_always_within(AppView::initial(), events);
}

/// Whether `earlier` is the start of `later`.
pub open spec fn extends(later: Seq<Seq<char>>, earlier: Seq<Seq<char>>) -> bool {
    earlier.len() <= later.len() && later.take(earlier.len() as int) == earlier
}

/// Events of the process only append to the scrollback.
pub proof fn lemma_absorb_all_appends(s: AppView, messages: Seq<PythonMessage>, now: nat)
    ensures
        extends(s.absorb_all(messages, now).scrollback, s.scrollback),
    decreases messages.len(),
{
    if messages.len() == 0 {
        assert(s.scrollback.take(s.scrollback.len() as int) =~= s.scrollback);
    } else {
        lemma_absorb_all_appends(s, messages.drop_last(), now);
        let before = s.absorb_all(messages.drop_last(), now);
        let after = before.absorb(messages.last(), now);
        assert(extends(after.scrollback, before.scrollback)) by {
            assert(after.scrollback.take(before.scrollback.len() as int) =~= before.scrollback);
        }
        assert(after.scrollback.take(s.scrollback.len() as int) =~= before.scrollback.take(
            s.scrollback.len() as int,
        ));
    }
}

/// The scrollback is append-only: no event removes, changes or reorders a
/// line that it holds. What it held before an event is the start of what it
/// holds after.
pub proof fn lemma_scrollback_is_append_only(s: AppView, event: Event)
    ensures
        extends(s.after(event).scrollback, s.scrollback),
{
    let after = s.after(event);
    match event {
        Event::Output(messages, now) => {
            lemma_absorb_all_appends(s, messages, now);
        },
        _ => {
            assert(after.scrollback.take(s.scrollback.len() as int) =~= s.scrollback);
        },
    }
}

/// Whatever happens, in whatever order, the lines that the scrollback held
/// at the start stay where they are.
pub proof fn lemma_scrollback_only_grows(s: AppView, events: Seq<Event>)
    ensures
        extends(s.after_all(events).scrollback, s.scrollback),
    decreases events.len(),
{
    if events.len() == 0 {
        assert(s.scrollback.take(s.scrollback.len() as int) =~= s.scrollback);
    } else {
        lemma_scrollback_only_grows(s, events.drop_last());
        let before = s.after_all(events.drop_last());
        lemma_scrollback_is_append_only(before, events.last());
        let after = before.after(events.last());
        assert(after.scrollback.take(s.scrollback.len() as int) =~= before.scrollback.take(
            s.scrollback.len() as int,
        ));
    }
}

} // verus!
