//! The state of the terminal interface and how events and key presses
//! change it. Drawing the widgets is left to the program around the library.

use vstd::prelude::*;
use vstd::string::*;
use crate::text::{pop_char, push_char, push_text, same_text, trim_seq, trim_text};

verus! {

/// How far a transfer has come: `done` of `total` bytes. A transfer of
/// zero bytes counts as complete.
#[derive(Clone, Copy, PartialEq, Eq, Structural)]
pub struct Progress {
    pub done: u64,
    pub total: u64,
}

impl Progress {
    /// No progress.
    pub open spec fn spec_zero() -> Progress {
        Progress { done: 0, total: 1 }
    }

    /// Progress of `done` bytes out of `total`; what goes beyond the total
    /// counts as the total, so progress never exceeds completion.
    pub fn of(done: u64, total: u64) -> (p: Progress)
        ensures
            p == clamped(Progress { done, total }),
    {
        if done <= total {
            Progress { done, total }
        } else {
            Progress { done: total, total }
        }
    }

    /// No progress.
    pub fn zero() -> (p: Progress)
        ensures
            p == Progress::spec_zero(),
    {
        Progress { done: 0, total: 1 }
    }
}

/// A progress that goes no further than its total.
pub open spec fn clamped(p: Progress) -> Progress {
    Progress {
        done: if p.done <= p.total {
            p.done
        } else {
            p.total
        },
        total: p.total,
    }
}

/// Something that happened, for the interface to show.
pub enum AppEvent {
    /// The user sent a chat message.
    Input(String),
    /// A chat message arrived: sender and text.
    MessageReceived(String, String),
    /// A line for the system log.
    SystemMessage(String),
    /// A file transfer advanced.
    FileProgress(String, Progress),
    /// A download was saved.
    FileComplete(String),
    /// The peer went away.
    ConnectionClosed,
    /// The peer announced its user name.
    PeerUsername(String),
}

/// The value of an [`AppEvent`].
pub enum EventValue {
    Input(Seq<char>),
    MessageReceived(Seq<char>, Seq<char>),
    SystemMessage(Seq<char>),
    FileProgress(Seq<char>, Progress),
    FileComplete(Seq<char>),
    ConnectionClosed,
    PeerUsername(Seq<char>),
}

impl View for AppEvent {
    type V = EventValue;

    open spec fn view(&self) -> EventValue {
        match self {
            AppEvent::Input(t) => EventValue::Input(t@),
            AppEvent::MessageReceived(s, t) => EventValue::MessageReceived(s@, t@),
            AppEvent::SystemMessage(t) => EventValue::SystemMessage(t@),
            AppEvent::FileProgress(f, p) => EventValue::FileProgress(f@, *p),
            AppEvent::FileComplete(f) => EventValue::FileComplete(f@),
            AppEvent::ConnectionClosed => EventValue::ConnectionClosed,
            AppEvent::PeerUsername(n) => EventValue::PeerUsername(n@),
        }
    }
}

/// Everything the interface shows.
pub struct AppState {
    pub messages: Vec<(String, String)>,
    pub system_logs: Vec<String>,
    pub input: String,
    pub room_code: String,
    pub fingerprint: String,
    pub conn_status: String,
    pub transfer_filename: Option<String>,
    pub transfer_progress: Progress,
    pub our_username: String,
    pub peer_username: String,
}

/// The value of an [`AppState`].
pub struct StateValue {
    pub messages: Seq<(Seq<char>, Seq<char>)>,
    pub system_logs: Seq<Seq<char>>,
    pub input: Seq<char>,
    pub room_code: Seq<char>,
    pub fingerprint: Seq<char>,
    pub conn_status: Seq<char>,
    pub transfer_filename: Option<Seq<char>>,
    pub transfer_progress: Progress,
    pub our_username: Seq<char>,
    pub peer_username: Seq<char>,
}

/// The text of a list of strings.
pub open spec fn texts(v: Seq<String>) -> Seq<Seq<char>> {
    v.map_values(|s: String| s@)
}

/// The text of a list of (sender, message) pairs.
pub open spec fn text_pairs(v: Seq<(String, String)>) -> Seq<(Seq<char>, Seq<char>)> {
    v.map_values(|p: (String, String)| (p.0@, p.1@))
}

impl View for AppState {
    type V = StateValue;

    open spec fn view(&self) -> StateValue {
        StateValue {
            messages: text_pairs(self.messages@),
            system_logs: texts(self.system_logs@),
            input: self.input@,
            room_code: self.room_code@,
            fingerprint: self.fingerprint@,
            conn_status: self.conn_status@,
            transfer_filename: match self.transfer_filename {
                Some(f) => Some(f@),
                None => None,
            },
            transfer_progress: self.transfer_progress,
            our_username: self.our_username@,
            peer_username: self.peer_username@,
        }
    }
}

/// The state after an event.
pub open spec fn apply_event_spec(s: StateValue, e: EventValue) -> StateValue {
    match e {
        EventValue::PeerUsername(n) => StateValue {
            peer_username: n,
            system_logs: s.system_logs.push("[INFO] Peer identified as: "@ + n),
            ..s
        },
        EventValue::Input(t) => StateValue { messages: s.messages.push((s.our_username, t)), ..s },
        EventValue::MessageReceived(sender, t) => StateValue {
            messages: s.messages.push(
                (
                    if sender == "Peer"@ {
                        s.peer_username
                    } else {
                        sender
                    },
                    t,
                ),
            ),
            ..s
        },
        EventValue::SystemMessage(t) => StateValue { system_logs: s.system_logs.push(t), ..s },
        EventValue::FileProgress(f, p) => StateValue {
            transfer_filename: Some(f),
            transfer_progress: clamped(p),
            ..s
        },
        EventValue::FileComplete(f) => StateValue {
            system_logs: s.system_logs.push("[SUCCESS] File saved: "@ + f),
            transfer_filename: None,
            transfer_progress: Progress::spec_zero(),
            ..s
        },
        EventValue::ConnectionClosed => StateValue {
            system_logs: s.system_logs.push("[ERROR] Peer disconnected."@),
            conn_status: "DISCONNECTED"@,
            ..s
        },
    }
}

/// Events only add to the history: the chat messages and log lines before
/// an event stay in place and at most one of each is added, and the room
/// code, the fingerprint and the user's own name never change.
pub proof fn lemma_history_append_only(s: StateValue, e: EventValue)
    ensures
        apply_event_spec(s, e).messages.len() <= s.messages.len() + 1,
        apply_event_spec(s, e).messages.len() >= s.messages.len(),
        apply_event_spec(s, e).messages.take(s.messages.len() as int) == s.messages,
        apply_event_spec(s, e).system_logs.len() <= s.system_logs.len() + 1,
        apply_event_spec(s, e).system_logs.len() >= s.system_logs.len(),
        apply_event_spec(s, e).system_logs.take(s.system_logs.len() as int) == s.system_logs,
        apply_event_spec(s, e).room_code == s.room_code,
        apply_event_spec(s, e).fingerprint == s.fingerprint,
        apply_event_spec(s, e).our_username == s.our_username,
{
    let t = apply_event_spec(s, e);
    assert(t.messages.take(s.messages.len() as int) =~= s.messages);
    assert(t.system_logs.take(s.system_logs.len() as int) =~= s.system_logs);
}

/// The progress shown never goes past completion: after any event, `done`
/// is at most `total` when it was before.
pub proof fn lemma_progress_bounded(s: StateValue, e: EventValue)
    requires
        s.transfer_progress.done <= s.transfer_progress.total,
    ensures
        apply_event_spec(s, e).transfer_progress.done <= apply_event_spec(
            s,
            e,
        ).transfer_progress.total,
{
}

/// A key press, as far as the interface cares.
pub enum KeyInput {
    Enter,
    Char(char),
    Backspace,
    Esc,
    Other,
}

/// What the main loop does after handling events.
#[derive(PartialEq, Eq, Structural)]
pub enum LoopControl {
    /// Keep drawing.
    Continue,
    /// The peer is gone: pause so the user can read why, then leave.
    ExitAfterPause,
    /// Leave at once.
    Exit,
}

/// The chat pane's lines, one `[sender] message` line per message.
pub open spec fn chat_lines(m: Seq<(Seq<char>, Seq<char>)>) -> Seq<char>
    decreases m.len(),
{
    if m.len() == 0 {
        Seq::empty()
    } else {
        chat_lines(m.drop_last()) + "["@ + m.last().0 + "] "@ + m.last().1 + "\n"@
    }
}

/// The chat pane: its lines, or a placeholder when no message was exchanged.
pub open spec fn chat_text_seq(m: Seq<(Seq<char>, Seq<char>)>) -> Seq<char> {
    if m.len() == 0 {
        "\n\n  --- No messages in this session ---"@
    } else {
        chat_lines(m)
    }
}

/// With no message exchanged, the chat pane shows the placeholder.
pub proof fn lemma_chat_empty()
    ensures
        chat_text_seq(Seq::empty()) == "\n\n  --- No messages in this session ---"@,
{
}

/// The first message of a session is shown at once, as its own line
/// `[sender] text`.
pub proof fn lemma_chat_first_message(sender: Seq<char>, text: Seq<char>)
    ensures
        chat_text_seq(seq![(sender, text)]) == "["@ + sender + "] "@ + text + "\n"@,
{
    let m = seq![(sender, text)];
    assert(m.drop_last() =~= Seq::empty());
    assert(chat_lines(m.drop_last()) == Seq::<char>::empty());
    assert(Seq::<char>::empty() + "["@ + sender + "] "@ + text + "\n"@ =~= "["@ + sender + "] "@ + text
        + "\n"@);
}

/// Once a message was exchanged, each further message adds exactly its own
/// line `[sender] text` at the end of the chat pane, and nothing else
/// changes.
pub proof fn lemma_chat_next_message(m: Seq<(Seq<char>, Seq<char>)>, sender: Seq<char>, text: Seq<char>)
    requires
        m.len() > 0,
    ensures
        chat_text_seq(m.push((sender, text))) == chat_text_seq(m) + "["@ + sender + "] "@ + text + "\n"@,
{
    assert(m.push((sender, text)).drop_last() =~= m);
    assert(chat_lines(m) + "["@ + sender + "] "@ + text + "\n"@ =~= chat_lines(m) + ("["@ + sender + "] "@
        + text + "\n"@));
}

/// How many log lines the side pane shows.
pub const RECENT_LOGS: usize = 5;

/// The diagnostics section: the five newest log lines, newest first.
pub open spec fn diagnostics_seq(logs: Seq<Seq<char>>) -> Seq<char> {
    let n = if logs.len() < RECENT_LOGS {
        logs.len()
    } else {
        RECENT_LOGS as nat
    };
    "⚡ System Diagnostics\n"@ + recent_log_lines_rev(logs, n)
}

/// The newest `n` log lines, newest first.
pub open spec fn recent_log_lines_rev(logs: Seq<Seq<char>>, n: nat) -> Seq<char>
    decreases n,
{
    if n == 0 {
        Seq::empty()
    } else {
        recent_log_lines_rev(logs, (n - 1) as nat) + "  "@ + logs[logs.len() - n] + "\n"@
    }
}

/// The connection section of the side pane.
pub open spec fn status_seq(s: StateValue) -> Seq<char> {
    "📶 Connection Status\n  "@ + s.conn_status + "\n\n🗝️ Room Access Code\n  "@ + s.room_code
        + "\n\n🔒 Fingerprint\n  "@ + s.fingerprint + "\n\n"@
}

/// The input line: the text typed so far and a cursor that blinks with the ticks.
pub open spec fn input_line_seq(input: Seq<char>, ticks: u32) -> Seq<char> {
    if ticks % 2 == 0 {
        input.push('_')
    } else {
        input.push(' ')
    }
}

/// The tick after `t`: ticks count up and wrap to 0 past 100.
pub open spec fn next_tick_spec(t: u32) -> u32 {
    if t + 1 > 100 {
        0
    } else {
        (t + 1) as u32
    }
}

impl AppState {
    /// The state at the start of a session.
    pub fn new(room_code: String, fingerprint: String, conn_status: String, our_username: String) -> (s: Self)
        ensures
            s@.messages.len() == 0,
            s@.system_logs == seq!["[INFO] Ephemeral tunnel established."@],
            s@.input.len() == 0,
            s@.room_code == room_code@,
            s@.fingerprint == fingerprint@,
            s@.conn_status == conn_status@,
            s@.transfer_filename is None,
            s@.transfer_progress == Progress::spec_zero(),
            s@.our_username == our_username@,
            s@.peer_username == "Peer"@,
    {
        let mut logs: Vec<String> = Vec::new();
        logs.push(String::from_str("[INFO] Ephemeral tunnel established."));
        let s = AppState {
            messages: Vec::new(),
            system_logs: logs,
            input: String::new(),
            room_code,
            fingerprint,
            conn_status,
            transfer_filename: None,
            transfer_progress: Progress::zero(),
            our_username,
            peer_username: String::from_str("Peer"),
        };
        assert(s@.system_logs =~= seq!["[INFO] Ephemeral tunnel established."@]);
        assert(s@.messages =~= Seq::empty());
        s
    }

    /// Updates the state for an event.
    pub fn apply_event(&mut self, event: AppEvent)
        ensures
            final(self)@ == apply_event_spec(old(self)@, event@),
    {
        let ghost before = self@;
        match event {
            AppEvent::PeerUsername(name) => {
                let mut line = String::from_str("[INFO] Peer identified as: ");
                push_text(&mut line, name.as_str());
                self.peer_username = name;
                self.system_logs.push(line);
            },
            AppEvent::Input(text) => {
                let who = self.our_username.clone();
                self.messages.push((who, text));
            },
            AppEvent::MessageReceived(sender, text) => {
                let display = if sender == String::from_str("Peer") {
                    self.peer_username.clone()
                } else {
                    sender
                };
                self.messages.push((display, text));
            },
            AppEvent::SystemMessage(text) => {
                self.system_logs.push(text);
            },
            AppEvent::FileProgress(filename, progress) => {
                self.transfer_filename = Some(filename);
                self.transfer_progress = Progress::of(progress.done, progress.total);
            },
            AppEvent::FileComplete(filename) => {
                let mut line = String::from_str("[SUCCESS] File saved: ");
                push_text(&mut line, filename.as_str());
                self.system_logs.push(line);
                self.transfer_filename = None;
                self.transfer_progress = Progress::zero();
            },
            AppEvent::ConnectionClosed => {
                self.system_logs.push(String::from_str("[ERROR] Peer disconnected."));
                self.conn_status = String::from_str("DISCONNECTED");
            },
        }
        assert(self@.messages =~= apply_event_spec(before, event@).messages);
        assert(self@.system_logs =~= apply_event_spec(before, event@).system_logs);
    }

    /// Handles a key press; returns the command to send, if the key sends one.
    /// Enter sends the typed line unless it is blank, and clears it; Esc asks
    /// to leave. Leaving (Esc, or the line `/exit`) marks the session closed
    /// by the user, which ends the main loop.
    pub fn handle_key(&mut self, key: KeyInput) -> (cmd: Option<String>)
        ensures
            match key {
                KeyInput::Enter => if trim_seq(old(self)@.input).len() > 0 {
                    cmd matches Some(c) && c@ == old(self)@.input && final(self)@ == StateValue {
                        input: Seq::empty(),
                        conn_status: if old(self)@.input == "/exit"@ {
                            "CLOSED_BY_USER"@
                        } else {
                            old(self)@.conn_status
                        },
                        ..old(self)@
                    }
                } else {
                    cmd is None && final(self)@ == old(self)@
                },
                KeyInput::Char(c) => cmd is None && final(self)@ == StateValue {
                    input: old(self)@.input.push(c),
                    ..old(self)@
                },
                KeyInput::Backspace => cmd is None && final(self)@ == StateValue {
                    input: if old(self)@.input.len() > 0 {
                        old(self)@.input.drop_last()
                    } else {
                        old(self)@.input
                    },
                    ..old(self)@
                },
                KeyInput::Esc => (cmd matches Some(c) && c@ == "/exit"@) && final(self)@
                    == StateValue { conn_status: "CLOSED_BY_USER"@, ..old(self)@ },
                KeyInput::Other => cmd is None && final(self)@ == old(self)@,
            },
    {
        match key {
            KeyInput::Enter => {
                if trim_text(self.input.as_str()).is_empty() {
                    None
                } else {
                    let cmd = self.input.clone();
                    self.input = String::new();
                    if same_text(cmd.as_str(), "/exit") {
                        self.conn_status = String::from_str("CLOSED_BY_USER");
                    }
                    Some(cmd)
                }
            },
            KeyInput::Char(c) => {
                push_char(&mut self.input, c);
                None
            },
            KeyInput::Backspace => {
                let _ = pop_char(&mut self.input);
                None
            },
            KeyInput::Esc => {
                self.conn_status = String::from_str("CLOSED_BY_USER");
                Some(String::from_str("/exit"))
            },
            KeyInput::Other => None,
        }
    }

    /// Whether the main loop goes on.
    pub fn loop_control(&self) -> (r: LoopControl)
        ensures
            r == (if self@.conn_status == "DISCONNECTED"@ {
                LoopControl::ExitAfterPause
            } else if self@.conn_status == "CLOSED_BY_USER"@ {
                LoopControl::Exit
            } else {
                LoopControl::Continue
            }),
    {
        if self.conn_status == String::from_str("DISCONNECTED") {
            LoopControl::ExitAfterPause
        } else if self.conn_status == String::from_str("CLOSED_BY_USER") {
            LoopControl::Exit
        } else {
            LoopControl::Continue
        }
    }

    /// The text of the chat pane.
    pub fn chat_text(&self) -> (r: String)
        ensures
            r@ == chat_text_seq(self@.messages),
    {
        let n = self.messages.len();
        if n == 0 {
            return String::from_str("\n\n  --- No messages in this session ---");
        }
        let mut s = String::new();
        let mut i: usize = 0;
        while i < n
            invariant
                i <= n,
                n == self@.messages.len(),
                s@ == chat_lines(self@.messages.take(i as int)),
            decreases n - i,
        {
            let pair = &self.messages[i];
            push_text(&mut s, "[");
            push_text(&mut s, pair.0.as_str());
            push_text(&mut s, "] ");
            push_text(&mut s, pair.1.as_str());
            push_text(&mut s, "\n");
            assert(self@.messages.take(i + 1).drop_last() =~= self@.messages.take(i as int));
            i = i + 1;
        }
        assert(self@.messages.take(n as int) =~= self@.messages);
        s
    }

    /// The connection section of the side pane.
    pub fn status_text(&self) -> (r: String)
        ensures
            r@ == status_seq(self@),
    {
        let mut s = String::from_str("📶 Connection Status\n  ");
        push_text(&mut s, self.conn_status.as_str());
        push_text(&mut s, "\n\n🗝️ Room Access Code\n  ");
        push_text(&mut s, self.room_code.as_str());
        push_text(&mut s, "\n\n🔒 Fingerprint\n  ");
        push_text(&mut s, self.fingerprint.as_str());
        push_text(&mut s, "\n\n");
        s
    }

    /// The diagnostics section of the side pane.
    pub fn diagnostics_text(&self) -> (r: String)
        ensures
            r@ == diagnostics_seq(self@.system_logs),
    {
        let len = self.system_logs.len();
        let n = if len < RECENT_LOGS {
            len
        } else {
            RECENT_LOGS
        };
        let mut s = String::from_str("⚡ System Diagnostics\n");
        let mut k: usize = 0;
        while k < n
            invariant
                k <= n <= len,
                len == self@.system_logs.len(),
                s@ == "⚡ System Diagnostics\n"@ + recent_log_lines_rev(self@.system_logs, k as nat),
            decreases n - k,
        {
            push_text(&mut s, "  ");
            push_text(&mut s, self.system_logs[len - 1 - k].as_str());
            push_text(&mut s, "\n");
            k = k + 1;
        }
        s
    }

    /// The input line at tick `ticks`.
    pub fn input_line(&self, ticks: u32) -> (r: String)
        ensures
            r@ == input_line_seq(self@.input, ticks),
    {
        let mut s = self.input.clone();
        if ticks % 2 == 0 {
            push_char(&mut s, '_');
        } else {
            push_char(&mut s, ' ');
        }
        s
    }
}

/// The tick after `t`.
pub fn next_tick(t: u32) -> (r: u32)
    ensures
        r == next_tick_spec(t),
{
    if t >= 100 {
        0
    } else {
        t + 1
    }
}

} // verus!
