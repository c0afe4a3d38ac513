use vstd::prelude::*;

use crate::console::{default_prefix, reset_view, Console, ConsoleView, Show};
use crate::listing::{Descend, DirList, EntryKind, ListingView};
use crate::paths::{join_path, joined};

verus! {

/// The logical identity of a pressed key.
#[derive(Clone, Copy, Debug, PartialEq, Eq, Structural)]
pub enum Key {
    Char(char),
    Up,
    Down,
    Left,
    Right,
    Enter,
    Esc,
    Backspace,
    Home,
    End,
    Other,
}

/// How key presses are read.
#[derive(Clone, Copy, Debug, PartialEq, Eq, Structural)]
pub enum Mode {
    Normal,
    Insert,
    Command,
}

pub open spec fn mode_label(m: Mode) -> Seq<char> {
    match m {
        Mode::Normal => "Normal"@,
        Mode::Insert => "Insert"@,
        Mode::Command => ""@,
    }
}

impl Mode {
    /// The word shown for the mode; the command line takes its place in command mode.
    pub fn label(&self) -> (r: &'static str)
        ensures
            r@ == mode_label(*self),
    {
        match self {
            Mode::Normal => "Normal",
            Mode::Insert => "Insert",
            Mode::Command => "",
        }
    }
}

/// Progress through a two-key sequence.
#[derive(Clone, Copy, Debug, PartialEq, Eq, Structural)]
pub enum State {
    /// No sequence is under way.
    Idle,
    /// The first key of a sequence was pressed; the next key confirms it or is
    /// handled on its own.
    Pending(char),
}

/// File-system work that a key press asks of the caller. After each of them but
/// `Quit` the caller reads a directory and hands the listing back.
pub enum Action {
    /// Leave the program.
    Quit,
    /// Show the directory at this path.
    Load(String),
    /// Remove this file, then show the current directory again.
    RemoveFile(String),
    /// Create this empty file, then show the current directory again.
    CreateFile(String),
    /// Create this directory, then show the current directory again.
    CreateDir(String),
}

/// Why the selected entry was not deleted.
#[derive(Debug)]
pub enum DeleteError {
    /// Directories are never deleted.
    IsDirectory(String),
}

/// Mathematical model of what a key press leads to.
pub enum Outcome {
    Nothing,
    Quit,
    Load(Seq<char>),
    RemoveFile(Seq<char>),
    CreateFile(Seq<char>),
    CreateDir(Seq<char>),
    DeleteRefused(Seq<char>),
}

pub open spec fn action_outcome(a: Action) -> Outcome {
    match a {
        Action::Quit => Outcome::Quit,
        Action::Load(p) => Outcome::Load(p@),
        Action::RemoveFile(p) => Outcome::RemoveFile(p@),
        Action::CreateFile(p) => Outcome::CreateFile(p@),
        Action::CreateDir(p) => Outcome::CreateDir(p@),
    }
}

pub open spec fn outcome_of(r: Result<Option<Action>, DeleteError>) -> Outcome {
    match r {
        Ok(None) => Outcome::Nothing,
        Ok(Some(a)) => action_outcome(a),
        Err(DeleteError::IsDirectory(p)) => Outcome::DeleteRefused(p@),
    }
}

pub open spec fn file_prompt() -> Seq<char> {
    "Enter File Name:"@
}

pub open spec fn dir_prompt() -> Seq<char> {
    "Enter Directory Name:"@
}

pub open spec fn has_prefix(s: Seq<char>, p: Seq<char>) -> bool {
    p.len() <= s.len() && s.take(p.len() as int) == p
}

/// What a submitted command line asks for, in directory `dir`.
pub open spec fn command_outcome(cmd: Seq<char>, dir: Seq<char>) -> Outcome {
    if has_prefix(cmd, file_prompt()) {
        Outcome::CreateFile(joined(dir, cmd.skip(file_prompt().len() as int)))
    } else if has_prefix(cmd, dir_prompt()) {
        Outcome::CreateDir(joined(dir, cmd.skip(dir_prompt().len() as int)))
    } else if cmd == ":q"@ {
        Outcome::Quit
    } else {
        Outcome::Nothing
    }
}

/// Mathematical model of the browser's state.
pub struct AppView {
    pub mode: Mode,
    pub state: State,
    pub listing: ListingView,
    pub console: ConsoleView,
    pub should_exit: bool,
}

impl AppView {
    /// Both parts are well formed; only normal mode waits for a second key, and only
    /// for the two sequences there are; the command line shows exactly in command mode.
    pub open spec fn wf(self) -> bool {
        &&& self.listing.wf()
        &&& self.console.wf()
        &&& (self.state is Pending ==> self.mode == Mode::Normal && (self.state->0 == 'g'
            || self.state->0 == 'd'))
        &&& (self.mode == Mode::Command <==> self.console.display == Show::Visible)
    }

    pub open spec fn with_listing(self, l: ListingView) -> AppView {
        AppView { mode: self.mode, state: self.state, listing: l, console: self.console, should_exit: self.should_exit }
    }

    pub open spec fn with_console(self, c: ConsoleView) -> AppView {
        AppView { mode: self.mode, state: self.state, listing: self.listing, console: c, should_exit: self.should_exit }
    }

    pub open spec fn with_mode(self, m: Mode) -> AppView {
        AppView { mode: m, state: self.state, listing: self.listing, console: self.console, should_exit: self.should_exit }
    }

    pub open spec fn with_state(self, s: State) -> AppView {
        AppView { mode: self.mode, state: s, listing: self.listing, console: self.console, should_exit: self.should_exit }
    }

    pub open spec fn with_exit(self, e: bool) -> AppView {
        AppView { mode: self.mode, state: self.state, listing: self.listing, console: self.console, should_exit: e }
    }

    /// Deleting the selected entry: a file is to be removed, a directory is refused,
    /// and the parent reference (or anything else) is left alone.
    pub open spec fn delete_step(self) -> (AppView, Outcome) {
        match self.listing.selected_entry() {
            Some(e) => match e.kind {
                EntryKind::File => (self, Outcome::RemoveFile(e.path)),
                EntryKind::Directory => (self, Outcome::DeleteRefused(e.path)),
                _ => (self, Outcome::Nothing),
            },
            None => (self, Outcome::Nothing),
        }
    }

    /// Moving into the selected entry.
    pub open spec fn descend_step(self) -> (AppView, Outcome) {
        match self.listing.selected_entry() {
            Some(e) => match e.kind {
                EntryKind::ParentRef => (self, Outcome::Load(self.listing.up_path())),
                EntryKind::Directory => (self, Outcome::Load(e.path)),
                _ => (self, Outcome::Nothing),
            },
            None => (self, Outcome::Nothing),
        }
    }

    pub open spec fn normal_step(self, key: Key) -> (AppView, Outcome) {
        match key {
            Key::Char('j') | Key::Down => (self.with_listing(self.listing.after_next()), Outcome::Nothing),
            Key::Char('k') | Key::Up => (self.with_listing(self.listing.after_prev()), Outcome::Nothing),
            Key::Char('h') | Key::Left => (self, Outcome::Load(self.listing.up_path())),
            Key::Char('l') | Key::Right | Key::Enter => self.descend_step(),
            Key::Char('g') => (self.with_state(State::Pending('g')), Outcome::Nothing),
            Key::Char('d') => (self.with_state(State::Pending('d')), Outcome::Nothing),
            Key::Home => (self.with_listing(self.listing.after_first()), Outcome::Nothing),
            Key::Char('G') | Key::End => (self.with_listing(self.listing.after_last()), Outcome::Nothing),
            Key::Char('i') => (
                self.with_listing(self.listing.after_first()).with_mode(Mode::Insert),
                Outcome::Nothing,
            ),
            Key::Char('a') => (
                self.with_listing(self.listing.after_last()).with_mode(Mode::Insert),
                Outcome::Nothing,
            ),
            Key::Char(':') => (
                self.with_console(self.console.shown(default_prefix())).with_mode(Mode::Command),
                Outcome::Nothing,
            ),
            _ => (self, Outcome::Nothing),
        }
    }

    pub open spec fn insert_step(self, key: Key) -> (AppView, Outcome) {
        match key {
            Key::Char('f') => (
                self.with_console(self.console.shown(file_prompt())).with_mode(Mode::Command),
                Outcome::Nothing,
            ),
            Key::Char('d') => (
                self.with_console(self.console.shown(dir_prompt())).with_mode(Mode::Command),
                Outcome::Nothing,
            ),
            Key::Esc => (self.with_mode(Mode::Normal), Outcome::Nothing),
            _ => (self, Outcome::Nothing),
        }
    }

    pub open spec fn command_step(self, key: Key) -> (AppView, Outcome) {
        match key {
            Key::Esc => (self.with_console(self.console.hidden()).with_mode(Mode::Normal), Outcome::Nothing),
            Key::Enter => {
                let out = command_outcome(self.console.buffer, self.listing.path);
                (
                    self.with_console(reset_view()).with_mode(Mode::Normal).with_exit(
                        self.should_exit || out is Quit,
                    ),
                    out,
                )
            },
            Key::Backspace => (self.with_console(self.console.deleted()), Outcome::Nothing),
            Key::Char(c) => (self.with_console(self.console.inserted(c)), Outcome::Nothing),
            _ => (self, Outcome::Nothing),
        }
    }

    /// A key pressed while no sequence is under way.
    pub open spec fn dispatch_step(self, key: Key) -> (AppView, Outcome) {
        match self.mode {
            Mode::Normal => self.normal_step(key),
            Mode::Insert => self.insert_step(key),
            Mode::Command => self.command_step(key),
        }
    }

    /// A key pressed in any state: a key that completes the pending sequence runs it
    /// (`gg` selects the first entry, `dd` deletes the selected one); any other key
    /// ends the sequence and is handled on its own.
    pub open spec fn step(self, key: Key) -> (AppView, Outcome) {
        match self.state {
            State::Pending(p) => if key == Key::Char(p) {
                let v = self.with_state(State::Idle);
                if p == 'g' {
                    (v.with_listing(v.listing.after_first()), Outcome::Nothing)
                } else {
                    v.delete_step()
                }
            } else {
                self.with_state(State::Idle).dispatch_step(key)
            },
            State::Idle => self.dispatch_step(key),
        }
    }
}

/// The directory browser: a listing, a command line, and the mode that decides
/// what each key does to them.
pub struct App {
    mode: Mode,
    state: State,
    dir_list: DirList,
    console: Console,
    should_exit: bool,
}

impl View for App {
    type V = AppView;

    closed spec fn view(&self) -> AppView {
        AppView {
            mode: self.mode,
            state: self.state,
            listing: self.dir_list@,
            console: self.console@,
            should_exit: self.should_exit,
        }
    }
}

impl App {
    pub open spec fn wf(&self) -> bool {
        self@.wf()
    }

    /// A browser in normal mode over `listing`, with the command line hidden.
    pub fn new(listing: DirList) -> (r: App)
        requires
            listing.wf(),
        ensures
            r.wf(),
            r@ == (AppView {
                mode: Mode::Normal,
                state: State::Idle,
                listing: listing@,
                console: reset_view(),
                should_exit: false,
            }),
    {
        App { mode: Mode::Normal, state: State::Idle, dir_list: listing, console: Console::new(), should_exit: false }
    }

    /// Puts a freshly read listing in place of the current one.
    pub fn set_listing(&mut self, listing: DirList)
        requires
            old(self).wf(),
            listing.wf(),
        ensures
            final(self).wf(),
            final(self)@ == old(self)@.with_listing(listing@),
    {
        self.dir_list = listing;
    }

    pub fn mode(&self) -> (r: Mode)
        ensures
            r == self@.mode,
    {
        self.mode
    }

    pub fn state(&self) -> (r: State)
        ensures
            r == self@.state,
    {
        self.state
    }

    pub fn dir_list(&self) -> (r: &DirList)
        ensures
            r@ == self@.listing,
    {
        &self.dir_list
    }

    pub fn console(&self) -> (r: &Console)
        ensures
            r@ == self@.console,
    {
        &self.console
    }

    pub fn should_exit(&self) -> (r: bool)
        ensures
            r == self@.should_exit,
    {
        self.should_exit
    }
}

/// Whether `s` begins with `p`, compared character by character.
pub fn starts_with(s: &str, p: &str) -> (r: bool)
    ensures
        r == has_prefix(s@, p@),
{
    let n = s.unicode_len();
    let m = p.unicode_len();
    if m > n {
        return false;
    }
    let head = String::from_str(s.substring_char(0, m));
    let whole = String::from_str(p);
    head == whole
}

impl App {
    /// Handles one pressed key. What it changes and what it asks of the caller are
    /// given by `step`.
    pub fn handle_key(&mut self, key: Key) -> (r: Result<Option<Action>, DeleteError>)
        requires
            old(self).wf(),
        ensures
            final(self).wf(),
            final(self)@ == old(self)@.step(key).0,
            outcome_of(r) == old(self)@.step(key).1,
    {
        match self.state {
            State::Pending(p) => {
                self.state = State::Idle;
                if key == Key::Char(p) {
                    if p == 'g' {
                        self.dir_list.select_first();
                        Ok(None)
                    } else {
                        self.delete_selected()
                    }
                } else {
                    self.dispatch(key)
                }
            },
            State::Idle => self.dispatch(key),
        }
    }

    fn dispatch(&mut self, key: Key) -> (r: Result<Option<Action>, DeleteError>)
        requires
            old(self).wf(),
            old(self)@.state == State::Idle,
        ensures
            final(self).wf(),
            final(self)@ == old(self)@.dispatch_step(key).0,
            outcome_of(r) == old(self)@.dispatch_step(key).1,
    {
        match self.mode {
            Mode::Normal => self.normal_key(key),
            Mode::Insert => Ok(self.insert_key(key)),
            Mode::Command => Ok(self.command_key(key)),
        }
    }

    fn normal_key(&mut self, key: Key) -> (r: Result<Option<Action>, DeleteError>)
        requires
            old(self).wf(),
            old(self)@.state == State::Idle,
            old(self)@.mode == Mode::Normal,
        ensures
            final(self).wf(),
            final(self)@ == old(self)@.normal_step(key).0,
            outcome_of(r) == old(self)@.normal_step(key).1,
    {
        match key {
            Key::Char('j') | Key::Down => {
                self.dir_list.select_next();
                Ok(None)
            },
            Key::Char('k') | Key::Up => {
                self.dir_list.select_prev();
                Ok(None)
            },
            Key::Char('h') | Key::Left => Ok(Some(self.move_up_dir())),
            Key::Char('l') | Key::Right | Key::Enter => Ok(self.move_down_dir()),
            Key::Char('g') => {
                self.state = State::Pending('g');
                Ok(None)
            },
            Key::Char('d') => {
                self.state = State::Pending('d');
                Ok(None)
            },
            Key::Home => {
                self.dir_list.select_first();
                Ok(None)
            },
            Key::Char('G') | Key::End => {
                self.dir_list.select_last();
                Ok(None)
            },
            Key::Char('i') => {
                self.enter_insert('i');
                Ok(None)
            },
            Key::Char('a') => {
                self.enter_insert('a');
                Ok(None)
            },
            Key::Char(':') => {
                self.console.show_console();
                self.mode = Mode::Command;
                Ok(None)
            },
            _ => Ok(None),
        }
    }

    fn insert_key(&mut self, key: Key) -> (r: Option<Action>)
        requires
            old(self).wf(),
            old(self)@.state == State::Idle,
            old(self)@.mode == Mode::Insert,
        ensures
            final(self).wf(),
            final(self)@ == old(self)@.insert_step(key).0,
            outcome_of(Ok(r)) == old(self)@.insert_step(key).1,
    {
        match key {
            Key::Char('f') => {
                self.console.set_prefix("Enter File Name:");
                self.mode = Mode::Command;
            },
            Key::Char('d') => {
                self.console.set_prefix("Enter Directory Name:");
                self.mode = Mode::Command;
            },
            Key::Esc => {
                self.mode = Mode::Normal;
            },
            _ => {},
        }
        None
    }

    fn command_key(&mut self, key: Key) -> (r: Option<Action>)
        requires
            old(self).wf(),
            old(self)@.state == State::Idle,
            old(self)@.mode == Mode::Command,
        ensures
            final(self).wf(),
            final(self)@ == old(self)@.command_step(key).0,
            outcome_of(Ok(r)) == old(self)@.command_step(key).1,
    {
        match key {
            Key::Esc => {
                self.console.hide_console();
                self.mode = Mode::Normal;
                None
            },
            Key::Enter => {
                let cmd = self.console.submit_command();
                self.mode = Mode::Normal;
                self.handle_command(&cmd)
            },
            Key::Backspace => {
                self.console.delete_char();
                None
            },
            Key::Char(x) => {
                self.console.enter_char(x);
                None
            },
            _ => None,
        }
    }

    /// Enters insert mode with the first (`'i'`) or the last (any other) entry selected.
    fn enter_insert(&mut self, inp: char)
        requires
            old(self).wf(),
            old(self)@.state == State::Idle,
            old(self)@.mode != Mode::Command,
        ensures
            final(self).wf(),
            final(self)@ == (if inp == 'i' {
                old(self)@.with_listing(old(self)@.listing.after_first())
            } else {
                old(self)@.with_listing(old(self)@.listing.after_last())
            }).with_mode(Mode::Insert),
    {
        self.mode = Mode::Insert;
        if inp == 'i' {
            self.dir_list.select_first();
        } else {
            self.dir_list.select_last();
        }
    }

    /// Asks for the parent of the current directory, or the root where it has none.
    fn move_up_dir(&self) -> (r: Action)
        ensures
            action_outcome(r) == Outcome::Load(self@.listing.up_path()),
    {
        Action::Load(self.dir_list.up_path())
    }

    /// Asks for the selected directory, or for the parent where the parent reference
    /// is selected; nothing for a file.
    fn move_down_dir(&self) -> (r: Option<Action>)
        requires
            self.wf(),
        ensures
            outcome_of(Ok(r)) == self@.descend_step().1,
    {
        match self.dir_list.descend() {
            Descend::Ascend => Some(self.move_up_dir()),
            Descend::Enter(p) => Some(Action::Load(p)),
            Descend::Stay => None,
        }
    }

    /// Asks for the selected file to be removed. The parent reference is left alone,
    /// and a directory is refused.
    pub fn delete_selected(&self) -> (r: Result<Option<Action>, DeleteError>)
        requires
            self.wf(),
        ensures
            outcome_of(r) == self@.delete_step().1,
    {
        match self.dir_list.selected_entry() {
            None => Ok(None),
            Some(e) => match e.kind {
                EntryKind::File => Ok(Some(Action::RemoveFile(e.path.clone()))),
                EntryKind::Directory => Err(DeleteError::IsDirectory(e.path.clone())),
                _ => Ok(None),
            },
        }
    }

    /// Acts on a submitted command line: the file and directory prompts ask for what
    /// follows them to be created in the current directory, `:q` quits, and anything
    /// else is ignored.
    fn handle_command(&mut self, cmd: &String) -> (r: Option<Action>)
        ensures
            final(self)@ == old(self)@.with_exit(old(self)@.should_exit || outcome_of(Ok(r)) is Quit),
            outcome_of(Ok(r)) == command_outcome(cmd@, old(self)@.listing.path),
    {
        let n = cmd.as_str().unicode_len();
        if starts_with(cmd.as_str(), "Enter File Name:") {
            let rest = cmd.as_str().substring_char("Enter File Name:".unicode_len(), n);
            Some(Action::CreateFile(join_path(self.dir_list.curr_dir().as_str(), rest)))
        } else if starts_with(cmd.as_str(), "Enter Directory Name:") {
            let rest = cmd.as_str().substring_char("Enter Directory Name:".unicode_len(), n);
            Some(Action::CreateDir(join_path(self.dir_list.curr_dir().as_str(), rest)))
        } else if *cmd == String::from_str(":q") {
            self.should_exit = true;
            Some(Action::Quit)
        } else {
            None
        }
    }
}

/// Submitting the command line in command mode leaves it hidden and reset and the
/// browser in normal mode, whether or not the text was a known command.
pub proof fn lemma_submit_resets(v: AppView)
    requires
        v.wf(),
        v.mode == Mode::Command,
    ensures
        v.step(Key::Enter).0.console == reset_view(),
        v.step(Key::Enter).0.mode == Mode::Normal,
        v.step(Key::Enter).0.wf(),
{
    reveal_strlit(":");
}

} // verus!
