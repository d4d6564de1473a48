use std::collections::VecDeque;

use vstd::prelude::*;

use crate::clock::{local_now_formatted, strftime_accepts};
use crate::config::Config;
use crate::layout::{column_titles, column_widths, string_views, titles_for, widths_for, ColumnWidth};
use crate::message::{ChatMessage, MessageModel};
use crate::text::string_of_chars;

verus! {

/// Interaction mode of the screen.
#[derive(Clone, Copy, Debug, PartialEq, Eq, Structural)]
pub enum State {
    Normal,
    Input,
    KeybindHelp,
}

/// A key press, as the dispatcher distinguishes them.
#[derive(Clone, Copy, Debug, PartialEq, Eq, Structural)]
pub enum Key {
    Char(char),
    Enter,
    Backspace,
    Esc,
    /// Any key that no mode reacts to.
    Other,
}

/// One event of the merged tick / key-press stream.
#[derive(Clone, Copy, Debug, PartialEq, Eq, Structural)]
pub enum Event {
    Tick,
    KeyPress(Key),
}

/// What the main loop does after an event was dispatched.
#[derive(Debug)]
pub enum Action {
    /// Redraw and wait for the next event.
    Continue,
    /// Leave the loop.
    Quit,
    /// Hand the text to the outbound channel, then continue.
    Send(String),
}

/// An `Action` over character sequences.
pub enum Effect {
    Continue,
    Quit,
    Send(Seq<char>),
}

impl View for Action {
    type V = Effect;

    open spec fn view(&self) -> Effect {
        match self {
            Action::Continue => Effect::Continue,
            Action::Quit => Effect::Quit,
            Action::Send(s) => Effect::Send(s@),
        }
    }
}

/// Failure of the one-time layout computation.
#[derive(Clone, Copy, Debug, PartialEq, Eq, Structural)]
pub enum LayoutError {
    /// chrono rejected the configured date format.
    DateFormatRejected,
}

/// The two layouts: the chat view, with or without the text-entry line, and
/// the keybind help.
#[derive(Clone, Copy, Debug, PartialEq, Eq, Structural)]
pub enum Screen {
    Chat,
    ChatWithInput,
    KeybindHelp,
}

/// The layout that mode `s` is drawn with.
pub open spec fn screen_of(s: State) -> Screen {
    match s {
        State::Normal => Screen::Chat,
        State::Input => Screen::ChatWithInput,
        State::KeybindHelp => Screen::KeybindHelp,
    }
}

/// The whole interaction state.
pub struct App {
    state: State,
    input_text: Vec<char>,
    messages: VecDeque<ChatMessage>,
    maximum_messages: usize,
    column_titles: Option<Vec<String>>,
    table_constraints: Option<Vec<ColumnWidth>>,
}

/// The interaction state over mathematical values; the history is newest first.
pub struct AppModel {
    pub state: State,
    pub input: Seq<char>,
    pub messages: Seq<MessageModel>,
    pub capacity: nat,
    pub column_titles: Option<Seq<Seq<char>>>,
    pub column_widths: Option<Seq<ColumnWidth>>,
}

impl View for App {
    type V = AppModel;

    closed spec fn view(&self) -> AppModel {
        AppModel {
            state: self.state,
            input: self.input_text@,
            messages: self.messages@.map_values(|m: ChatMessage| m@),
            capacity: self.maximum_messages as nat,
            column_titles: match self.column_titles {
                Some(v) => Some(string_views(v@)),
                None => None,
            },
            column_widths: match self.table_constraints {
                Some(v) => Some(v@),
                None => None,
            },
        }
    }
}

/// The column metadata is either absent or complete: as many titles as width
/// rules, two or three of each.
pub open spec fn columns_consistent(a: AppModel) -> bool {
    &&& a.column_titles is Some <==> a.column_widths is Some
    &&& a.column_titles is Some ==> {
        let n = a.column_titles.unwrap().len();
        &&& n == a.column_widths.unwrap().len()
        &&& n == 2 || n == 3
    }
}

/// `m` put in front of the history `h`; the oldest entries beyond `capacity`
/// are dropped.
pub open spec fn push_bounded(h: Seq<MessageModel>, m: MessageModel, capacity: nat) -> Seq<
    MessageModel,
> {
    let pushed = seq![m] + h;
    if pushed.len() > capacity {
        pushed.subrange(0, capacity as int)
    } else {
        pushed
    }
}

/// The local echo of a submitted `text`.
pub open spec fn local_echo(text: Seq<char>, cfg: Config, timestamp: Seq<char>) -> MessageModel {
    MessageModel { timestamp, author: cfg.username@, content: text, is_remote: false }
}

/// `a` with `m` put in front of its history.
pub open spec fn with_message(a: AppModel, m: MessageModel) -> AppModel {
    AppModel { messages: push_bounded(a.messages, m, a.capacity), ..a }
}

/// `a` with the column metadata computed from `cfg` and a sample timestamp
/// of `time_width` characters.
pub open spec fn with_columns(a: AppModel, cfg: Config, time_width: nat) -> AppModel {
    AppModel {
        column_titles: Some(titles_for(cfg)),
        column_widths: Some(widths_for(cfg, time_width)),
        ..a
    }
}

/// `a` in mode `s`.
pub open spec fn with_state(a: AppModel, s: State) -> AppModel {
    AppModel { state: s, ..a }
}

/// `a` with input buffer `input`.
pub open spec fn with_input(a: AppModel, input: Seq<char>) -> AppModel {
    AppModel { input, ..a }
}

/// The state after `key` is pressed in `a`; a submitted message carries
/// `timestamp`.
pub open spec fn after_key(a: AppModel, key: Key, cfg: Config, timestamp: Seq<char>) -> AppModel {
    match a.state {
        State::Input => match key {
            Key::Enter => with_message(
                with_input(a, Seq::empty()),
                local_echo(a.input, cfg, timestamp),
            ),
            Key::Char(c) => with_input(a, a.input.push(c)),
            Key::Backspace => if a.input.len() > 0 {
                with_input(a, a.input.drop_last())
            } else {
                a
            },
            Key::Esc => with_state(a, State::Normal),
            Key::Other => a,
        },
        _ => match key {
            Key::Char(c) => if c == 'c' {
                with_state(a, State::Normal)
            } else if c == '?' {
                with_state(a, State::KeybindHelp)
            } else if c == 'i' && cfg.input {
                with_state(a, State::Input)
            } else {
                a
            },
            Key::Esc => if a.state == State::KeybindHelp {
                with_state(a, State::Normal)
            } else {
                a
            },
            _ => a,
        },
    }
}

/// What the main loop is told to do after `key` is pressed in `a`.
pub open spec fn effect_of_key(a: AppModel, key: Key) -> Effect {
    if a.state == State::Input && key == Key::Enter {
        Effect::Send(a.input)
    } else if a.state == State::Normal && key == Key::Esc {
        Effect::Quit
    } else {
        Effect::Continue
    }
}

impl App {
    /// Well-formed: consistent column metadata and a history within its bound.
    pub open spec fn wf(&self) -> bool {
        &&& columns_consistent(self@)
        &&& self@.messages.len() <= self@.capacity
    }

    /// A fresh state: `Normal` mode, empty buffers, no column metadata yet.
    pub fn new(maximum_messages: usize) -> (r: Self)
        ensures
            r@ == (AppModel {
                state: State::Normal,
                input: Seq::empty(),
                messages: Seq::empty(),
                capacity: maximum_messages as nat,
                column_titles: None,
                column_widths: None,
            }),
            r.wf(),
    {
        let r = App {
            state: State::Normal,
            input_text: Vec::new(),
            messages: VecDeque::new(),
            maximum_messages,
            column_titles: None,
            table_constraints: None,
        };
        assert(r@.messages =~= Seq::empty());
        r
    }

    /// Puts `m` in front of the history, dropping the oldest entry where the
    /// bound is exceeded.
    pub fn push_message(&mut self, m: ChatMessage)
        ensures
            final(self)@ == with_message(old(self)@, m@),
            old(self).wf() ==> final(self).wf(),
    {
        let ghost old_msgs = self.messages@;
        let ghost mv = m@;
        self.messages.push_front(m);
        assert(self.messages@.map_values(|x: ChatMessage| x@) =~= seq![mv] + old_msgs.map_values(
            |x: ChatMessage| x@,
        ));
        if self.messages.len() > self.maximum_messages {
            let ghost pushed = self.messages@;
            self.messages.truncate(self.maximum_messages);
            assert(self.messages@.map_values(|x: ChatMessage| x@) =~= pushed.map_values(
                |x: ChatMessage| x@,
            ).subrange(0, self.maximum_messages as int));
        }
    }

    /// Takes in what the inbox handed over, if anything.
    pub fn receive(&mut self, incoming: Option<ChatMessage>)
        ensures
            final(self)@ == match incoming {
                Some(m) => with_message(old(self)@, m@),
                None => old(self)@,
            },
            old(self).wf() ==> final(self).wf(),
    {
        if let Some(m) = incoming {
            self.push_message(m);
        }
    }

    /// Sets the column metadata, given the width of a sample timestamp.
    pub fn init_columns(&mut self, cfg: &Config, time_width: usize)
        ensures
            final(self)@ == with_columns(old(self)@, *cfg, time_width as nat),
            old(self).wf() ==> final(self).wf(),
    {
        let titles = column_titles(cfg);
        let widths = column_widths(cfg, time_width);
        self.column_titles = Some(titles);
        self.table_constraints = Some(widths);
    }

    /// Dispatches one key press; a submitted message is stamped with `timestamp`.
    pub fn handle_key_at(&mut self, key: Key, cfg: &Config, timestamp: String) -> (r: Action)
        ensures
            final(self)@ == after_key(old(self)@, key, *cfg, timestamp@),
            r@ == effect_of_key(old(self)@, key),
            old(self).wf() ==> final(self).wf(),
    {
        match self.state {
            State::Input => match key {
                Key::Enter => {
                    let text = string_of_chars(&self.input_text);
                    let content = text.clone();
                    self.input_text.clear();
                    let echo = ChatMessage::new(timestamp, cfg.username.clone(), content, false);
                    self.push_message(echo);
                    Action::Send(text)
                },
                Key::Char(c) => {
                    self.input_text.push(c);
                    Action::Continue
                },
                Key::Backspace => {
                    self.input_text.pop();
                    Action::Continue
                },
                Key::Esc => {
                    self.state = State::Normal;
                    Action::Continue
                },
                Key::Other => Action::Continue,
            },
            _ => match key {
                Key::Char(c) => {
                    if c == 'c' {
                        self.state = State::Normal;
                    } else if c == '?' {
                        self.state = State::KeybindHelp;
                    } else if c == 'i' && cfg.input {
                        self.state = State::Input;
                    }
                    Action::Continue
                },
                Key::Esc => {
                    if self.state == State::Normal {
                        Action::Quit
                    } else {
                        self.state = State::Normal;
                        Action::Continue
                    }
                },
                _ => Action::Continue,
            },
        }
    }

    /// Dispatches one key press; a submitted message is stamped with the
    /// current local time in the configured format, or with an empty
    /// timestamp where that format is rejected.
    pub fn handle_key(&mut self, key: Key, cfg: &Config) -> (r: Action)
        ensures
            exists|timestamp: Seq<char>| final(self)@ == after_key(old(self)@, key, *cfg, timestamp),
            !(old(self)@.state == State::Input && key == Key::Enter) ==> final(self)@ == after_key(
                old(self)@,
                key,
                *cfg,
                Seq::empty(),
            ),
            old(self)@.state == State::Input && key == Key::Enter && !strftime_accepts(
                cfg.date_format@,
            ) ==> final(self)@ == after_key(old(self)@, key, *cfg, Seq::empty()),
            r@ == effect_of_key(old(self)@, key),
            old(self).wf() ==> final(self).wf(),
    {
        let timestamp = if self.state == State::Input && key == Key::Enter {
            match local_now_formatted(cfg.date_format.as_str()) {
                Some(s) => s,
                None => String::new(),
            }
        } else {
            String::new()
        };
        let ghost ts = timestamp@;
        let r = self.handle_key_at(key, cfg, timestamp);
        assert(self@ == after_key(old(self)@, key, *cfg, ts));
        r
    }

    /// Dispatches one event of the merged stream: a tick changes nothing.
    pub fn handle_event(&mut self, event: Event, cfg: &Config) -> (r: Action)
        ensures
            match event {
                Event::Tick => final(self)@ == old(self)@ && r@ == Effect::Continue,
                Event::KeyPress(key) => {
                    &&& exists|timestamp: Seq<char>|
                        final(self)@ == after_key(old(self)@, key, *cfg, timestamp)
                    &&& r@ == effect_of_key(old(self)@, key)
                },
            },
            old(self).wf() ==> final(self).wf(),
    {
        match event {
            Event::Tick => Action::Continue,
            Event::KeyPress(key) => self.handle_key(key, cfg),
        }
    }

    /// Computes the column metadata once, before the loop starts; the time
    /// column is as wide as the current local time written in the configured
    /// format. Fails, changing nothing, where that format is rejected.
    pub fn init_layout(&mut self, cfg: &Config) -> (r: Result<(), LayoutError>)
        ensures
            !cfg.date_shown ==> r is Ok && final(self)@ == with_columns(old(self)@, *cfg, 0),
            r is Ok <==> (!cfg.date_shown || strftime_accepts(cfg.date_format@)),
            cfg.date_format@.len() == 0 ==> r is Ok,
            r is Ok ==> exists|w: nat| final(self)@ == with_columns(old(self)@, *cfg, w),
            r is Err ==> cfg.date_shown && final(self)@ == old(self)@,
            old(self).wf() ==> final(self).wf(),
    {
        if !cfg.date_shown {
            self.init_columns(cfg, 0);
            return Ok(());
        }
        match local_now_formatted(cfg.date_format.as_str()) {
            Some(sample) => {
                let w = sample.as_str().unicode_len();
                self.init_columns(cfg, w);
                assert(self@ == with_columns(old(self)@, *cfg, w as nat));
                Ok(())
            },
            None => Err(LayoutError::DateFormatRejected),
        }
    }

    /// Which layout the current mode is drawn with.
    pub fn screen(&self) -> (r: Screen)
        ensures
            r == screen_of(self@.state),
    {
        match self.state {
            State::Normal => Screen::Chat,
            State::Input => Screen::ChatWithInput,
            State::KeybindHelp => Screen::KeybindHelp,
        }
    }

    pub fn state(&self) -> (r: State)
        ensures
            r == self@.state,
    {
        self.state
    }

    /// The text being composed.
    pub fn input_text(&self) -> (r: String)
        ensures
            r@ == self@.input,
    {
        string_of_chars(&self.input_text)
    }

    /// The history, newest first.
    pub fn messages(&self) -> (r: &VecDeque<ChatMessage>)
        ensures
            r@.map_values(|m: ChatMessage| m@) == self@.messages,
    {
        &self.messages
    }

    pub fn maximum_messages(&self) -> (r: usize)
        ensures
            r as nat == self@.capacity,
    {
        self.maximum_messages
    }

    pub fn column_titles(&self) -> (r: Option<&Vec<String>>)
        ensures
            match r {
                Some(v) => self@.column_titles == Some(string_views(v@)),
                None => self@.column_titles is None,
            },
    {
        self.column_titles.as_ref()
    }

    pub fn table_constraints(&self) -> (r: Option<&Vec<ColumnWidth>>)
        ensures
            match r {
                Some(v) => self@.column_widths == Some(v@),
                None => self@.column_widths is None,
            },
    {
        self.table_constraints.as_ref()
    }
}

} // verus!
