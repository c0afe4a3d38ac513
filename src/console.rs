use vstd::prelude::*;

verus! {

/// Whether the command line is drawn.
#[derive(Clone, Copy, Debug, PartialEq, Eq, Structural)]
pub enum Show {
    Visible,
    Hidden,
}

/// Mathematical model of the command line: its text, the cursor counted in
/// characters, and its visibility.
pub struct ConsoleView {
    pub buffer: Seq<char>,
    pub cursor: int,
    pub display: Show,
}

/// The prefix that a reset command line holds.
pub open spec fn default_prefix() -> Seq<char> {
    ":"@
}

/// The hidden command line holding the default prefix, with the cursor right after it.
pub open spec fn reset_view() -> ConsoleView {
    ConsoleView { buffer: default_prefix(), cursor: 1, display: Show::Hidden }
}

impl ConsoleView {
    pub open spec fn wf(self) -> bool {
        0 <= self.cursor <= self.buffer.len()
    }

    /// The state after hiding: whatever was typed is gone.
    pub open spec fn hidden(self) -> ConsoleView {
        reset_view()
    }

    /// The state after showing `prefix`: it is the whole text, and the cursor follows it.
    pub open spec fn shown(self, prefix: Seq<char>) -> ConsoleView {
        ConsoleView { buffer: prefix, cursor: prefix.len() as int, display: Show::Visible }
    }

    /// The state after typing `c` at the cursor.
    pub open spec fn inserted(self, c: char) -> ConsoleView {
        ConsoleView {
            buffer: self.buffer.take(self.cursor) + seq![c] + self.buffer.skip(self.cursor),
            cursor: self.cursor + 1,
            display: self.display,
        }
    }

    /// The state after removing the character before the cursor, if there is one.
    pub open spec fn deleted(self) -> ConsoleView {
        if self.cursor == 0 {
            self
        } else {
            ConsoleView {
                buffer: self.buffer.take(self.cursor - 1) + self.buffer.skip(self.cursor),
                cursor: self.cursor - 1,
                display: self.display,
            }
        }
    }

    pub open spec fn with_cursor(self, cursor: int) -> ConsoleView {
        ConsoleView { buffer: self.buffer, cursor, display: self.display }
    }
}

/// Relies on `String::push`: appends one character at the end.
#[verifier::external_body]
fn push_char(s: &mut String, c: char)
    ensures
        final(s)@ == old(s)@.push(c),
{
    s.push(c);
}

/// A one-line text editor with a cursor that never falls inside a character.
pub struct Console {
    input: String,
    character_index: usize,
    display: Show,
}

impl View for Console {
    type V = ConsoleView;

    closed spec fn view(&self) -> ConsoleView {
        ConsoleView {
            buffer: self.input@,
            cursor: self.character_index as int,
            display: self.display,
        }
    }
}

impl Console {
    pub open spec fn wf(&self) -> bool {
        self@.wf()
    }

    /// A hidden command line holding `":"`.
    pub fn new() -> (r: Console)
        ensures
            r@ == reset_view(),
            r.wf(),
    {
        let r = Console { input: String::from_str(":"), character_index: 1, display: Show::Hidden };
        proof {
            reveal_strlit(":");
        }
        r
    }

    /// Shows the bare command prompt `":"`.
    pub fn show_console(&mut self)
        ensures
            final(self)@ == old(self)@.shown(default_prefix()),
            final(self).wf(),
    {
        self.set_prefix(":");
    }

    /// Hides the command line and drops what was typed.
    pub fn hide_console(&mut self)
        ensures
            final(self)@ == old(self)@.hidden(),
            final(self).wf(),
    {
        self.display = Show::Hidden;
        self.character_index = 1;
        self.input = String::from_str(":");
        proof {
            reveal_strlit(":");
        }
    }

    /// Shows the command line holding `keyword`, with the cursor after its last character.
    pub fn set_prefix(&mut self, keyword: &str)
        ensures
            final(self)@ == old(self)@.shown(keyword@),
            final(self).wf(),
    {
        self.input = String::from_str(keyword);
        self.character_index = keyword.unicode_len();
        self.display = Show::Visible;
    }

    /// Moves the cursor one character left; at the start it stays.
    pub fn cursor_left(&mut self)
        requires
            old(self).wf(),
        ensures
            final(self).wf(),
            final(self)@ == old(self)@.with_cursor(
                if old(self)@.cursor > 0 { old(self)@.cursor - 1 } else { 0 },
            ),
    {
        if self.character_index > 0 {
            self.character_index = self.character_index - 1;
        }
    }

    /// Moves the cursor one character right; at the end it stays.
    pub fn cursor_right(&mut self)
        requires
            old(self).wf(),
        ensures
            final(self).wf(),
            final(self)@ == old(self)@.with_cursor(
                if old(self)@.cursor < old(self)@.buffer.len() { old(self)@.cursor + 1 } else { old(self)@.cursor },
            ),
    {
        if self.character_index < self.input.as_str().unicode_len() {
            self.character_index = self.character_index + 1;
        }
    }

    /// Inserts `new_char` at the cursor, which then moves past it.
    pub fn enter_char(&mut self, new_char: char)
        requires
            old(self).wf(),
        ensures
            final(self).wf(),
            final(self)@ == old(self)@.inserted(new_char),
    {
        let n = self.input.as_str().unicode_len();
        let idx = self.character_index;
        let mut s = String::from_str(self.input.as_str().substring_char(0, idx));
        push_char(&mut s, new_char);
        s.append(self.input.as_str().substring_char(idx, n));
        self.input = s;
        let m = self.input.as_str().unicode_len();
        assert(m == n + 1);
        self.character_index = idx + 1;
        assert(self@.buffer =~= old(self)@.inserted(new_char).buffer);
    }

    /// Removes the character before the cursor, which moves back over it; at the
    /// start nothing changes.
    pub fn delete_char(&mut self)
        requires
            old(self).wf(),
        ensures
            final(self).wf(),
            final(self)@ == old(self)@.deleted(),
    {
        if self.character_index != 0 {
            let n = self.input.as_str().unicode_len();
            let idx = self.character_index;
            let mut s = String::from_str(self.input.as_str().substring_char(0, idx - 1));
            s.append(self.input.as_str().substring_char(idx, n));
            self.input = s;
            self.character_index = idx - 1;
            assert(self@.buffer =~= old(self)@.deleted().buffer);
        }
    }

    /// Hands out the whole text and leaves the command line hidden and reset.
    pub fn submit_command(&mut self) -> (r: String)
        ensures
            r@ == old(self)@.buffer,
            final(self)@ == reset_view(),
            final(self).wf(),
    {
        self.character_index = 1;
        self.display = Show::Hidden;
        let result = self.input.clone();
        self.input = String::from_str(":");
        proof {
            reveal_strlit(":");
        }
        result
    }

    pub fn input(&self) -> (r: &String)
        ensures
            r@ == self@.buffer,
    {
        &self.input
    }

    pub fn character_index(&self) -> (r: usize)
        ensures
            r as int == self@.cursor,
    {
        self.character_index
    }

    pub fn display(&self) -> (r: Show)
        ensures
            r == self@.display,
    {
        self.display
    }
}

/// Typing a character keeps every character already there, whole and in order,
/// around the new one, and keeps the cursor within the text; deleting it again
/// gives back the text and cursor from before.
pub proof fn lemma_edit_keeps_characters(v: ConsoleView, c: char)
    requires
        v.wf(),
    ensures
        v.inserted(c).wf(),
        v.deleted().wf(),
        v.inserted(c).buffer.len() == v.buffer.len() + 1,
        v.inserted(c).buffer.take(v.cursor) == v.buffer.take(v.cursor),
        v.inserted(c).buffer[v.cursor] == c,
        v.inserted(c).buffer.skip(v.cursor + 1) == v.buffer.skip(v.cursor),
        v.inserted(c).deleted() == v,
{
    let w = v.inserted(c);
    assert(w.buffer.take(v.cursor) =~= v.buffer.take(v.cursor));
    assert(w.buffer.skip(v.cursor + 1) =~= v.buffer.skip(v.cursor));
    assert(w.deleted().buffer =~= v.buffer);
}

/// Hiding and then showing a prompt gives the same command line as a fresh one
/// showing that prompt.
pub proof fn lemma_hide_then_show(v: ConsoleView, prefix: Seq<char>)
    ensures
        v.hidden().shown(prefix) == reset_view().shown(prefix),
        v.hidden().shown(prefix).wf(),
{
}

} // verus!
