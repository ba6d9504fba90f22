//! Single-line command editor with history browsing.
//!
//! The editor owns the text being typed, an append-only history of submitted
//! commands, an error-display flag, a history cursor and a stashed draft that
//! is present exactly while the cursor is browsing history.
use vstd::prelude::*;
use crate::text::{pop_char, push_char};

verus! {

/// A command returned by the editor to the session loop.
#[derive(Debug, PartialEq)]
pub enum Command {
    Exit,
}

/// The keys the editor reacts to, as plain values.
#[derive(Clone, Copy, Debug, PartialEq)]
pub enum KeyCode {
    Char(char),
    Backspace,
    Enter,
    Up,
    Down,
    Other,
}

/// A key event: the key pressed plus whether the control modifier was held.
#[derive(Clone, Copy, Debug, PartialEq)]
pub struct KeyEvent {
    pub code: KeyCode,
    pub ctrl: bool,
}

/// Mathematical model of the editor state.
#[verifier::ext_equal]
pub ghost struct InputModel {
    /// The text currently displayed in the box.
    pub text: Seq<char>,
    /// History of past submitted commands, most recent last.
    pub history: Seq<Seq<char>>,
    /// Whether the displayed text is an error message.
    pub is_err: bool,
    /// History cursor depth, counted back from the most recent entry;
    /// 0 means the cursor is not browsing history.
    pub cursor: nat,
    /// Stashed draft, present exactly while the cursor is browsing.
    pub temp: Option<Seq<char>>,
}

/// The editor's internal invariant: the cursor stays within the history, and
/// a draft is stashed exactly while the cursor is away from the live text.
pub open spec fn editor_inv(m: InputModel) -> bool {
    &&& m.cursor <= m.history.len()
    &&& (m.cursor > 0 <==> m.temp is Some)
}

/// Leaving error-display mode: the flag is cleared and the buffer reset
/// before the incoming key is processed against the empty buffer.
pub open spec fn ack_error(m: InputModel) -> InputModel {
    if m.is_err {
        InputModel { text: Seq::<char>::empty(), is_err: false, ..m }
    } else {
        m
    }
}

/// The interrupt combination clears the buffer, leaves history browsing and
/// discards the stash; history itself is untouched.
pub open spec fn interrupt(m: InputModel) -> InputModel {
    InputModel { text: Seq::<char>::empty(), cursor: 0, temp: None, ..m }
}

/// History-older: stash the live draft on the transition away from depth 0,
/// then show the next-older entry; a no-op at maximum depth.
pub open spec fn older(m: InputModel) -> InputModel {
    if m.cursor < m.history.len() {
        InputModel {
            text: m.history[m.history.len() - m.cursor - 1],
            cursor: m.cursor + 1,
            temp: if m.cursor == 0 {
                Some(m.text)
            } else {
                m.temp
            },
            ..m
        }
    } else {
        m
    }
}

/// History-newer: returning to depth 0 restores the stash; otherwise show the
/// next-newer entry; a no-op at depth 0.
pub open spec fn newer(m: InputModel) -> InputModel {
    if m.cursor == 0 {
        m
    } else if m.cursor == 1 {
        InputModel {
            text: match m.temp {
                Some(t) => t,
                None => Seq::<char>::empty(),
            },
            cursor: 0,
            temp: None,
            ..m
        }
    } else {
        InputModel {
            text: m.history[m.history.len() - (m.cursor - 1)],
            cursor: (m.cursor - 1) as nat,
            ..m
        }
    }
}

/// The two case-sensitive words that end the session.
pub open spec fn is_exit_text(t: Seq<char>) -> bool {
    t == "exit"@ || t == "quit"@
}

/// Submit: leave history browsing, take the buffer as the command; an exit
/// word yields `Command::Exit` and is not recorded; anything else is appended
/// to history and the editor enters error-display mode.
pub open spec fn submit(m: InputModel) -> (InputModel, Option<Command>) {
    if is_exit_text(m.text) {
        (InputModel { text: Seq::<char>::empty(), cursor: 0, temp: None, ..m }, Some(Command::Exit))
    } else {
        (
            InputModel {
                text: "Unknown Command"@,
                cursor: 0,
                temp: None,
                history: m.history.push(m.text),
                is_err: true,
            },
            None,
        )
    }
}

/// One step of the editor: what a single key event does to the editor state
/// and what command, if any, it yields.
pub open spec fn key_step(m0: InputModel, ev: KeyEvent) -> (InputModel, Option<Command>) {
    let m = ack_error(m0);
    if ev.code == KeyCode::Char('c') && ev.ctrl {
        (interrupt(m), None::<Command>)
    } else {
        match ev.code {
            KeyCode::Char(c) => (InputModel { text: m.text.push(c), ..m }, None),
            KeyCode::Backspace => (
                InputModel {
                    text: if m.text.len() == 0 {
                        m.text
                    } else {
                        m.text.drop_last()
                    },
                    ..m
                },
                None,
            ),
            KeyCode::Up => (older(m), None),
            KeyCode::Down => (newer(m), None),
            KeyCode::Enter => submit(m),
            KeyCode::Other => (m, None),
        }
    }
}

/// Single-line command editor with history browsing.
pub struct Input {
    text: String,
    history: Vec<String>,
    is_err: bool,
    cursor: usize,
    temp: Option<String>,
}

impl View for Input {
    type V = InputModel;

    closed spec fn view(&self) -> InputModel {
        InputModel {
            text: self.text@,
            history: self.history.deep_view(),
            is_err: self.is_err,
            cursor: self.cursor as nat,
            temp: match self.temp {
                Some(t) => Some(t@),
                None => None,
            },
        }
    }
}

impl Input {
    /// The text currently displayed in the box.
    pub fn text(&self) -> (r: &String)
        ensures
            r@ == self@.text,
    {
        &self.text
    }

    /// Whether the displayed text is an error message.
    pub fn is_err(&self) -> (r: bool)
        ensures
            r == self@.is_err,
    {
        self.is_err
    }

    /// History of past submitted commands, most recent last.
    pub fn history(&self) -> (r: &Vec<String>)
        ensures
            r.deep_view() == self@.history,
    {
        &self.history
    }

    /// Current history cursor depth.
    pub fn cursor(&self) -> (r: usize)
        ensures
            r == self@.cursor,
    {
        self.cursor
    }

    /// Apply one key event, returning the command it yields, if any.
    pub fn on_key_event(&mut self, ev: KeyEvent) -> (cmd: Option<Command>)
        requires
            editor_inv(old(self)@),
        ensures
            editor_inv(final(self)@),
            final(self)@ == key_step(old(self)@, ev).0,
            cmd == key_step(old(self)@, ev).1,
    {
        if self.is_err {
            self.is_err = false;
            self.text = String::new();
        }
        let ghost m = ack_error(old(self)@);
        assert(self@ =~= m);

        let is_ctrl_c = ev.ctrl && match ev.code {
            KeyCode::Char(c) => c == 'c',
            _ => false,
        };
        if is_ctrl_c {
            self.text = String::new();
            self.cursor = 0;
            self.temp = None;
            assert(self@ =~= interrupt(m));
            return None;
        }

        match ev.code {
            KeyCode::Char(c) => {
                push_char(&mut self.text, c);
                assert(self@ =~= key_step(old(self)@, ev).0);
                None
            },
            KeyCode::Backspace => {
                pop_char(&mut self.text);
                assert(self@ =~= key_step(old(self)@, ev).0);
                None
            },
            KeyCode::Up => {
                self.cursor_increment();
                None
            },
            KeyCode::Down => {
                self.cursor_decrement();
                None
            },
            KeyCode::Enter => {
                self.temp = None;
                self.cursor = 0;
                let cmd = self.text.clone();
                self.text = String::new();
                if is_exit_string(&cmd) {
                    assert(self@ =~= submit(m).0);
                    return Some(Command::Exit);
                }
                self.is_err = true;
                self.text = "Unknown Command".to_owned();
                self.history.push(cmd);
                assert(self@.history =~= submit(m).0.history);
                assert(self@ =~= submit(m).0);
                None
            },
            KeyCode::Other => None,
        }
    }

    /// Move the cursor to the next-older history entry.
    fn cursor_increment(&mut self)
        requires
            editor_inv(old(self)@),
        ensures
            final(self)@ == older(old(self)@),
    {
        if self.cursor != self.history.len() {
            if self.cursor == 0 {
                self.temp = Some(self.text.clone());
            }
            self.cursor = self.cursor + 1;
            let entry = self.history[self.history.len() - self.cursor].clone();
            self.text = entry;
            assert(self@.text == old(self)@.history[old(self)@.history.len() - old(
                self,
            )@.cursor - 1]);
            assert(self@ =~= older(old(self)@));
        }
    }

    /// Move the cursor to the next-newer history entry.
    fn cursor_decrement(&mut self)
        requires
            editor_inv(old(self)@),
        ensures
            final(self)@ == newer(old(self)@),
    {
        if self.cursor != 0 {
            if self.cursor == 1 {
                self.cursor = 0;
                let t = match &self.temp {
                    Some(s) => s.clone(),
                    None => String::new(),
                };
                self.temp = None;
                self.text = t;
                assert(self@ =~= newer(old(self)@));
            } else {
                self.cursor = self.cursor - 1;
                let entry = self.history[self.history.len() - self.cursor].clone();
                self.text = entry;
                assert(self@.text == old(self)@.history[old(self)@.history.len() - (old(
                    self,
                )@.cursor - 1)]);
                assert(self@ =~= newer(old(self)@));
            }
        }
    }
}

impl Default for Input {
    /// A fresh editor: empty buffer, empty history, no error, not browsing.
    fn default() -> (r: Input)
        ensures
            r@ == (InputModel {
                text: Seq::<char>::empty(),
                history: Seq::<Seq<char>>::empty(),
                is_err: false,
                cursor: 0 as nat,
                temp: None::<Seq<char>>,
            }),
            editor_inv(r@),
    {
        let r = Input {
            text: String::new(),
            history: Vec::new(),
            is_err: false,
            cursor: 0,
            temp: None,
        };
        assert(r@ =~= InputModel {
            text: Seq::<char>::empty(),
            history: Seq::<Seq<char>>::empty(),
            is_err: false,
            cursor: 0 as nat,
            temp: None::<Seq<char>>,
        });
        r
    }
}

/// Whether the given string is one of the two exit words.
pub fn is_exit_string(s: &String) -> (r: bool)
    ensures
        r == is_exit_text(s@),
{
    let e: String = "exit".to_owned();
    let q: String = "quit".to_owned();
    *s == e || *s == q
}

/// Law: every key event preserves the editor invariant, so the history cursor
/// always stays within `[0, len(history)]`.
pub proof fn lemma_key_step_preserves_inv(m: InputModel, ev: KeyEvent)
    requires
        editor_inv(m),
    ensures
        editor_inv(key_step(m, ev).0),
{
}

/// Law: at maximum browsing depth, history-older leaves the editor unchanged.
pub proof fn lemma_older_at_max_depth_idempotent(m: InputModel)
    requires
        editor_inv(m),
        !m.is_err,
        m.cursor == m.history.len(),
    ensures
        key_step(m, KeyEvent { code: KeyCode::Up, ctrl: false }).0 == m,
        key_step(m, KeyEvent { code: KeyCode::Up, ctrl: false }).1 is None,
{
}

/// Law: from a live (non-browsing) buffer, going two entries back through
/// history and returning restores the editor exactly, whatever the buffer
/// held and however long the history is.
pub proof fn lemma_history_round_trip(m: InputModel)
    requires
        editor_inv(m),
        !m.is_err,
        m.cursor == 0,
    ensures
        ({
            let up = KeyEvent { code: KeyCode::Up, ctrl: false };
            let down = KeyEvent { code: KeyCode::Down, ctrl: false };
            let m1 = key_step(m, up).0;
            let m2 = key_step(m1, up).0;
            let m3 = key_step(m2, down).0;
            let m4 = key_step(m3, down).0;
            m4 == m
        }),
{
    let up = KeyEvent { code: KeyCode::Up, ctrl: false };
    let down = KeyEvent { code: KeyCode::Down, ctrl: false };
    let m1 = key_step(m, up).0;
    let m2 = key_step(m1, up).0;
    let m3 = key_step(m2, down).0;
    let m4 = key_step(m3, down).0;
    if m.history.len() == 0 {
        assert(m4 =~= m);
    } else if m.history.len() == 1 {
        assert(m4 =~= m);
    } else {
        assert(m4 =~= m);
    }
}

/// Law: submitting one of the exit words yields the exit command and leaves
/// history unchanged; submitting anything else appends it to history, raises
/// the error flag and shows the unknown-command message.
pub proof fn lemma_submit(m: InputModel)
    requires
        editor_inv(m),
        !m.is_err,
    ensures
        ({
            let r = key_step(m, KeyEvent { code: KeyCode::Enter, ctrl: false });
            &&& is_exit_text(m.text) ==> {
                &&& r.1 == Some(Command::Exit)
                &&& r.0.history == m.history
                &&& r.0.text == Seq::<char>::empty()
            }
            &&& !is_exit_text(m.text) ==> {
                &&& r.1 is None
                &&& r.0.history == m.history.push(m.text)
                &&& r.0.is_err
                &&& r.0.text == "Unknown Command"@
            }
        }),
{
}

} // verus!
