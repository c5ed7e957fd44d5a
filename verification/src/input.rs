//! The input editor: one line of text with a cursor, and the ring of what
//! was submitted. Positions count Unicode scalars, never bytes.

use crate::history::{record, HistoryRing, HISTORY_CAPACITY};
use crate::text::{chars_are_blank, is_blank, string_of_chars};
use vstd::prelude::*;

verus! {

/// The input editor as a mathematical value.
pub struct EditorView {
    /// The line being edited, scalar by scalar.
    pub text: Seq<char>,
    /// The cursor: how many scalars of the line lie before it.
    pub cursor: nat,
    /// The submitted inputs, oldest first.
    pub history: Seq<Seq<char>>,
}

impl EditorView {
    /// The cursor lies in the text or at its end, and the history is within
    /// its capacity.
    pub open spec fn wf(self) -> bool {
        &&& self.cursor <= self.text.len()
        &&& self.history.len() <= HISTORY_CAPACITY
    }

    /// The editor after `c` was typed: `c` stands at the cursor and the
    /// cursor behind it. A cursor beyond the text leaves all as it is.
    pub open spec fn insert(self, c: char) -> EditorView {
        if self.cursor <= self.text.len() {
            EditorView {
                text: self.text.insert(self.cursor as int, c),
                cursor: self.cursor + 1,
                history: self.history,
            }
        } else {
            self
        }
    }

    /// The editor after a backspace: the scalar before the cursor is gone and
    /// the cursor moved back over it. With nothing before the cursor, or a
    /// cursor beyond the text, all is left as it is.
    pub open spec fn backspace(self) -> EditorView {
        if 0 < self.cursor <= self.text.len() {
            EditorView {
                text: self.text.remove(self.cursor - 1),
                cursor: (self.cursor - 1) as nat,
                history: self.history,
            }
        } else {
            self
        }
    }

    /// The editor after the cursor moved one scalar left, if it was not at
    /// the start.
    pub open spec fn move_left(self) -> EditorView {
        if self.cursor > 0 {
            EditorView { text: self.text, cursor: (self.cursor - 1) as nat, history: self.history }
        } else {
            self
        }
    }

    /// The editor after the cursor moved one scalar right, if it was before
    /// the end.
    pub open spec fn move_right(self) -> EditorView {
        if self.cursor < self.text.len() {
            EditorView { text: self.text, cursor: self.cursor + 1, history: self.history }
        } else {
            self
        }
    }

    /// What a submit hands on: the line as typed, unless trimming it leaves
    /// nothing.
    pub open spec fn submitted(self) -> Option<Seq<char>> {
        if is_blank(self.text) {
            None
        } else {
            Some(self.text)
        }
    }

    /// The editor after a submit: the line and the cursor are reset, and a
    /// line that was handed on is the newest entry of the history.
    pub open spec fn submit(self) -> EditorView {
        EditorView {
            text: Seq::empty(),
            cursor: 0,
            history: if is_blank(self.text) {
                self.history
            } else {
                record(self.history, self.text)
            },
        }
    }
}

/// The line under the cursor and the ring of submitted inputs.
pub struct InputEditor {
    current_input: Vec<char>,
    cursor_position: usize,
    input_history: HistoryRing,
}

impl View for InputEditor {
    type V = EditorView;

    closed spec fn view(&self) -> EditorView {
        EditorView {
            text: self.current_input@,
            cursor: self.cursor_position as nat,
            history: self.input_history@,
        }
    }
}

impl InputEditor {
    /// The cursor lies in the text and the history is within its capacity.
    pub open spec fn wf(&self) -> bool {
        self@.wf()
    }

    /// An editor with an empty line and an empty history.
    pub fn new() -> (editor: InputEditor)
        ensures
            editor.wf(),
            editor@ == (EditorView { text: Seq::empty(), cursor: 0, history: Seq::empty() }),
    {
        InputEditor {
            current_input: Vec::new(),
            cursor_position: 0,
            input_history: HistoryRing::new(),
        }
    }

    /// The line being edited.
    pub fn current_input(&self) -> (text: String)
        ensures
            text@ == self@.text,
    {
        string_of_chars(&self.current_input)
    }

    /// Whether the line is empty.
    pub fn is_empty(&self) -> (empty: bool)
        ensures
            empty == (self@.text.len() == 0),
    {
        self.current_input.len() == 0
    }

    /// How many scalars the line has.
    pub fn input_len(&self) -> (len: usize)
        ensures
            len == self@.text.len(),
    {
        self.current_input.len()
    }

    /// How many scalars of the line lie before the cursor.
    pub fn cursor_position(&self) -> (cursor: usize)
        ensures
            cursor == self@.cursor,
    {
        self.cursor_position
    }

    /// The ring of submitted inputs.
    pub fn input_history(&self) -> (ring: &HistoryRing)
        ensures
            ring@ == self@.history,
    {
        &self.input_history
    }

    /// Types `c` at the cursor; the cursor moves behind it.
    pub fn insert(&mut self, c: char)
        ensures
            final(self)@ == old(self)@.insert(c),
            old(self).wf() ==> final(self).wf(),
    {
        if self.cursor_position <= self.current_input.len() {
            self.current_input.insert(self.cursor_position, c);
            let len: usize = self.current_input.len();
            assert(self.cursor_position < len);
            self.cursor_position += 1;
        }
    }

    /// Removes the scalar before the cursor, if there is one.
    pub fn backspace(&mut self)
        ensures
            final(self)@ == old(self)@.backspace(),
            old(self).wf() ==> final(self).wf(),
    {
        if self.cursor_position > 0 {
            if self.cursor_position <= self.current_input.len() {
                self.cursor_position -= 1;
                let _ = self.current_input.remove(self.cursor_position);
            }
        }
    }

    /// Moves the cursor one scalar left; at the start it stays.
    pub fn move_left(&mut self)
        ensures
            final(self)@ == old(self)@.move_left(),
            old(self).wf() ==> final(self).wf(),
    {
        if self.cursor_position > 0 {
            self.cursor_position -= 1;
        }
    }

    /// Moves the cursor one scalar right; at the end it stays.
    pub fn move_right(&mut self)
        ensures
            final(self)@ == old(self)@.move_right(),
            old(self).wf() ==> final(self).wf(),
    {
        if self.cursor_position < self.current_input.len() {
            self.cursor_position += 1;
        }
    }

    /// Submits the line. A line that trimming would not empty is recorded in
    /// the history as typed and handed on; one of white space only is dropped.
    /// Either way the line and the cursor are reset.
    pub fn submit(&mut self) -> (submitted: Option<String>)
        ensures
            final(self)@ == old(self)@.submit(),
            old(self).wf() ==> final(self).wf(),
            match submitted {
                Some(text) => old(self)@.submitted() == Some(text@),
                None => old(self)@.submitted().is_none(),
            },
    {
        let submitted = if chars_are_blank(&self.current_input) {
            None
        } else {
            let input = string_of_chars(&self.current_input);
            self.input_history.push(input.clone());
            Some(input)
        };
        self.current_input.clear();
        self.cursor_position = 0;
        submitted
    }
}

/// One keystroke's worth of editing.
pub enum Edit {
    /// A scalar is typed.
    Insert(char),
    /// The scalar before the cursor is removed.
    Backspace,
    /// The cursor moves left.
    Left,
    /// The cursor moves right.
    Right,
    /// The line is submitted.
    Submit,
}

impl EditorView {
    /// The editor after one edit.
    pub open spec fn edit(self, e: Edit) -> EditorView {
        match e {
            Edit::Insert(c) => self.insert(c),
            Edit::Backspace => self.backspace(),
            Edit::Left => self.move_left(),
            Edit::Right => self.move_right(),
            Edit::Submit => self.submit(),
        }
    }

    /// The editor after the edits `edits`, in order.
    pub open spec fn edit_all(self, edits: Seq<Edit>) -> EditorView
        decreases edits.len(),
    {
        if edits.len() == 0 {
            self
        } else {
            self.edit_all(edits.drop_last()).edit(edits.last())
        }
    }
}

/// No edit takes the cursor out of the text or the history over its
/// capacity.
pub proof fn lemma_edit_keeps_cursor_in_text(v: EditorView, e: Edit)
    requires
        v.wf(),
    ensures
        v.edit(e).wf(),
{
}

/// However typing, backspaces, cursor moves and submits are interleaved, the
/// cursor stays between the start of the text and its end.
pub proof fn lemma_edits_keep_cursor_in_text(v: EditorView, edits: Seq<Edit>)
    requires
        v.wf(),
    ensures
        v.edit_all(edits).wf(),
        v.edit_all(edits).cursor <= v.edit_all(edits).text.len(),
    decreases edits.len(),
{
    if edits.len() > 0 {
        lemma_edits_keep_cursor_in_text(v, edits.drop_last());
        lemma_edit_keeps_cursor_in_text(v.edit_all(edits.drop_last()), edits.last());
    }
}

/// Typing one scalar, of however many bytes, makes the text one scalar longer
/// and moves the cursor by exactly one place: the scalar stands where the
/// cursor was, what lay before it and behind it is unchanged.
pub proof fn lemma_insert_advances_by_one(v: EditorView, c: char)
    requires
        v.wf(),
    ensures
        v.insert(c).cursor == v.cursor + 1,
        v.insert(c).text.len() == v.text.len() + 1,
        v.insert(c).text[v.cursor as int] == c,
        v.insert(c).text.take(v.cursor as int) == v.text.take(v.cursor as int),
        v.insert(c).text.skip(v.cursor as int + 1) == v.text.skip(v.cursor as int),
        v.insert(c).backspace() == v,
{
    let w = v.insert(c);
    assert(w.text.take(v.cursor as int) =~= v.text.take(v.cursor as int));
    assert(w.text.skip(v.cursor as int + 1) =~= v.text.skip(v.cursor as int));
    assert(w.text.remove(v.cursor as int) =~= v.text);
}

} // verus!
