//! The session state and its key-driven transitions.

use vstd::prelude::*;

verus! {

/// `String::push` appends one character at the end of the string.
pub assume_specification[ String::push ](s: &mut String, ch: char)
    ensures
        final(s)@ == old(s)@.push(ch),
;

/// `String::pop` removes the last character and returns it, or returns `None`
/// and leaves the string alone when it is empty.
pub assume_specification[ String::pop ](s: &mut String) -> (last: Option<char>)
    ensures
        old(s)@.len() == 0 ==> last is None && final(s)@ == old(s)@,
        old(s)@.len() > 0 ==> last == Some(old(s)@.last()) && final(s)@ == old(s)@.drop_last(),
;

/// Which key bindings are active.
#[derive(Clone, Copy, Debug, PartialEq, Eq, Structural)]
pub enum AppState {
    Normal,
    EditMode,
}

/// The identity of a pressed key, as far as the session tells keys apart.
#[derive(Clone, Copy, Debug, PartialEq, Eq, Structural)]
pub enum Key {
    Char(char),
    Enter,
    Backspace,
    Esc,
    Other,
}

/// One event delivered by the terminal.
#[derive(Clone, Copy, Debug, PartialEq, Eq, Structural)]
pub enum Event {
    Key(Key),
    Other,
}

/// What the event loop does after an event: draw again and wait for the
/// next one, or return.
#[derive(Clone, Copy, Debug, PartialEq, Eq, Structural)]
pub enum Signal {
    Continue,
    Quit,
}

/// The session as a mathematical value.
pub struct AppView {
    pub mode: AppState,
    pub input: Seq<char>,
    pub messages: Seq<Seq<char>>,
}

/// The state after `key` is pressed in state `s`.
pub open spec fn step(s: AppView, key: Key) -> AppView {
    match s.mode {
        AppState::Normal => if key == Key::Char('e') {
            AppView { mode: AppState::EditMode, ..s }
        } else {
            s
        },
        AppState::EditMode => match key {
            Key::Char(c) => AppView { input: s.input.push(c), ..s },
            Key::Backspace => if s.input.len() > 0 {
                AppView { input: s.input.drop_last(), ..s }
            } else {
                s
            },
            Key::Enter => AppView {
                input: Seq::empty(),
                messages: s.messages.push(s.input),
                ..s
            },
            Key::Esc => AppView { mode: AppState::Normal, ..s },
            Key::Other => s,
        },
    }
}

/// Whether pressing `key` in state `s` ends the session.
pub open spec fn quits(s: AppView, key: Key) -> bool {
    s.mode == AppState::Normal && key == Key::Char('q')
}

/// The session: the line being typed, the mode, and the committed lines.
#[derive(Clone, Debug)]
pub struct App {
    input: String,
    input_mode: AppState,
    messages: Vec<String>,
}

impl View for App {
    type V = AppView;

    closed spec fn view(&self) -> AppView {
        AppView {
            mode: self.input_mode,
            input: self.input@,
            messages: self.messages.deep_view(),
        }
    }
}

/// The state after `event` is handled in state `s`: a key press takes its
/// step, anything else leaves the state as it is.
pub open spec fn event_step(s: AppView, event: Event) -> AppView {
    match event {
        Event::Key(key) => step(s, key),
        Event::Other => s,
    }
}

/// Whether handling `event` in state `s` ends the session.
pub open spec fn event_quits(s: AppView, event: Event) -> bool {
    match event {
        Event::Key(key) => quits(s, key),
        Event::Other => false,
    }
}

/// The state in which every session starts.
pub open spec fn initial() -> AppView {
    AppView { mode: AppState::Normal, input: Seq::empty(), messages: Seq::empty() }
}

impl Default for App {
    fn default() -> (app: App)
        ensures
            app@ == initial(),
    {
        App::new()
    }
}

impl App {
    /// A session in normal mode with nothing typed and nothing committed.
    pub fn new() -> (app: App)
        ensures
            app@ == initial(),
    {
        let app = App { input: String::new(), input_mode: AppState::Normal, messages: Vec::new() };
        assert(app.messages.deep_view() =~= Seq::<Seq<char>>::empty());
        app
    }

    /// The current mode.
    pub fn input_mode(&self) -> (mode: AppState)
        ensures
            mode == self@.mode,
    {
        self.input_mode
    }

    /// The line being typed.
    pub fn input(&self) -> (text: &str)
        ensures
            text@ == self@.input,
    {
        self.input.as_str()
    }

    /// The committed lines, oldest first.
    pub fn messages(&self) -> (list: &Vec<String>)
        ensures
            list.deep_view() == self@.messages,
    {
        &self.messages
    }

    /// Handles one key press: the session takes the step that its mode
    /// assigns to the key, and signals whether the event loop is to return.
    ///
    /// In normal mode `e` starts editing, `q` quits, and every other key
    /// leaves the session as it is. In edit mode a character is appended to
    /// the line, Backspace removes the last character if there is one, Enter
    /// commits the line (also an empty one) and clears it, Esc goes back to
    /// normal mode, and no key quits.
    pub fn handle_key(&mut self, key: Key) -> (signal: Signal)
        ensures
            final(self)@ == step(old(self)@, key),
            signal == Signal::Quit <==> quits(old(self)@, key),
            signal == Signal::Quit <==> old(self)@.mode == AppState::Normal
                && key == Key::Char('q'),
            old(self)@.mode == AppState::Normal ==> (final(self)@.mode == AppState::EditMode
                <==> key == Key::Char('e')),
            old(self)@.mode == AppState::Normal ==> final(self)@.input == old(self)@.input
                && final(self)@.messages == old(self)@.messages,
            old(self)@.mode == AppState::Normal && key != Key::Char('e')
                ==> final(self)@ == old(self)@,
            old(self)@.mode == AppState::EditMode && key == Key::Esc
                ==> final(self)@.mode == AppState::Normal
                && final(self)@.input == old(self)@.input
                && final(self)@.messages == old(self)@.messages,
            key == Key::Backspace && old(self)@.input.len() == 0 ==> final(self)@ == old(self)@,
    {
        match self.input_mode {
            AppState::Normal => match key {
                Key::Char('e') => {
                    self.input_mode = AppState::EditMode;
                    Signal::Continue
                },
                Key::Char('q') => Signal::Quit,
                _ => Signal::Continue,
            },
            AppState::EditMode => {
                match key {
                    Key::Enter => {
                        let mut line = String::new();
                        std::mem::swap(&mut self.input, &mut line);
                        self.messages.push(line);
                        assert(self.messages.deep_view() =~= old(self).messages.deep_view().push(
                            old(self).input@,
                        ));
                    },
                    Key::Char(c) => {
                        self.input.push(c);
                    },
                    Key::Backspace => {
                        self.input.pop();
                    },
                    Key::Esc => {
                        self.input_mode = AppState::Normal;
                    },
                    Key::Other => {},
                }
                Signal::Continue
            },
        }
    }

    /// Handles one terminal event. Events other than key presses change
    /// nothing and never quit.
    pub fn handle_event(&mut self, event: Event) -> (signal: Signal)
        ensures
            final(self)@ == event_step(old(self)@, event),
            signal == Signal::Quit <==> event_quits(old(self)@, event),
            event == Event::Other ==> final(self)@ == old(self)@ && signal == Signal::Continue,
    {
        match event {
            Event::Key(key) => self.handle_key(key),
            Event::Other => Signal::Continue,
        }
    }
}

} // verus!
