//! The session: the handshake of nickname, color and chat, the current room,
//! the message log, and the connection slot, driven by events.
//!
//! The loop that reads keys, draws the screen and talks to the relay lives
//! outside this library. It hands each event to [`SessionController::step`],
//! carries out the action that comes back, and reports how a write or a
//! connect ended with the next event.

use crate::command::{classify, forwarded, Command, CommandParser, CommandView};
use crate::connection::{
    log_after_reconnect, log_after_switch, ConnectionManager, ConnectionView, SendStep,
    SendStepView,
};
use crate::message::{reconnected_notice, views, ChatMessage, ChatMessageView};
use crate::store::{lemma_window_shape, MessageStore, StoreView};
use crate::text::{blank, chars_of, is_blank, is_space};
use vstd::prelude::*;

verus! {

/// The step of the handshake that the next line belongs to.
#[derive(Clone, Copy, Debug, PartialEq, Eq, Structural)]
pub enum SessionPhase {
    AwaitingNickname,
    AwaitingColor,
    Chatting,
}

impl SessionPhase {
    /// What the input box asks for in a phase.
    pub open spec fn prompt_text(self) -> Seq<char> {
        match self {
            SessionPhase::AwaitingNickname => "Enter nickname"@,
            SessionPhase::AwaitingColor => "Enter hex color"@,
            SessionPhase::Chatting => "Input"@,
        }
    }

    /// What the input box asks for in this phase.
    pub fn prompt(self) -> (s: &'static str)
        ensures
            s@ == self.prompt_text(),
    {
        match self {
            SessionPhase::AwaitingNickname => "Enter nickname",
            SessionPhase::AwaitingColor => "Enter hex color",
            SessionPhase::Chatting => "Input",
        }
    }

    /// The place of a phase in the handshake.
    pub open spec fn rank(self) -> nat {
        match self {
            SessionPhase::AwaitingNickname => 0,
            SessionPhase::AwaitingColor => 1,
            SessionPhase::Chatting => 2,
        }
    }
}

/// A key that the user pressed.
#[derive(Clone, Copy, Debug, PartialEq, Eq, Structural)]
pub enum Key {
    /// A character, with or without the control key held down.
    Char { c: char, control: bool },
    Backspace,
    Enter,
    Esc,
    Up,
    Down,
    /// Any other key.
    Other,
}

impl Key {
    /// The keys that end the session: escape, and `c` with the control key.
    pub open spec fn interrupts(self) -> bool {
        match self {
            Key::Esc => true,
            Key::Char { c, control } => control && c == 'c',
            _ => false,
        }
    }
}

/// What the session waits for, as plain values.
pub enum PendingView {
    Idle,
    Write,
    Reconnect,
    Switch(Seq<char>),
}

/// What the session waits for from the transport.
#[derive(Debug, PartialEq, Eq)]
pub enum Pending {
    /// Nothing.
    Idle,
    /// The outcome of a frame write.
    Write,
    /// The outcome of the automatic reconnect.
    Reconnect,
    /// The outcome of a connect to this address, which the user asked for.
    Switch(String),
}

impl View for Pending {
    type V = PendingView;

    open spec fn view(&self) -> PendingView {
        match self {
            Pending::Idle => PendingView::Idle,
            Pending::Write => PendingView::Write,
            Pending::Reconnect => PendingView::Reconnect,
            Pending::Switch(url) => PendingView::Switch(url@),
        }
    }
}

/// What happened, as plain values.
pub enum EventView {
    Viewport(nat),
    Key(Key),
    Submit(Seq<char>),
    Received(ChatMessageView),
    WriteDone(bool),
    ConnectDone(bool),
}

/// What happened.
#[derive(Debug, PartialEq, Eq)]
pub enum Event {
    /// A round of the loop begins, with a viewport of this many lines.
    Viewport(usize),
    /// The user pressed a key.
    Key(Key),
    /// The user confirmed this line.
    Submit(String),
    /// A message arrived from a reader.
    Received(ChatMessage),
    /// The frame of the last `Write` was written, or lost.
    WriteDone(bool),
    /// The connection of the last `Reconnect` or `Switch` was opened and has
    /// replaced the old one, or could not be opened.
    ConnectDone(bool),
}

impl View for Event {
    type V = EventView;

    open spec fn view(&self) -> EventView {
        match self {
            Event::Viewport(height) => EventView::Viewport(*height as nat),
            Event::Key(key) => EventView::Key(*key),
            Event::Submit(line) => EventView::Submit(line@),
            Event::Received(msg) => EventView::Received(msg@),
            Event::WriteDone(delivered) => EventView::WriteDone(*delivered),
            Event::ConnectDone(connected) => EventView::ConnectDone(*connected),
        }
    }
}

/// What the loop is to do, as plain values.
pub enum ActionView {
    Nothing,
    Write(Seq<char>),
    Reconnect(Seq<char>),
    Switch(Seq<char>),
    Quit,
}

/// What the loop is to do.
#[derive(Debug, PartialEq, Eq)]
pub enum Action {
    /// Nothing.
    Nothing,
    /// Write this text as one frame, and report `WriteDone`.
    Write(String),
    /// Open a connection to this address; if that succeeds, put it in the
    /// place of the old one and start a reader on it. Report `ConnectDone`.
    Reconnect(String),
    /// Send a close frame on the old connection, whether or not that
    /// succeeds, then do as for `Reconnect`.
    Switch(String),
    /// Leave the loop.
    Quit,
}

impl View for Action {
    type V = ActionView;

    open spec fn view(&self) -> ActionView {
        match self {
            Action::Nothing => ActionView::Nothing,
            Action::Write(text) => ActionView::Write(text@),
            Action::Reconnect(url) => ActionView::Reconnect(url@),
            Action::Switch(url) => ActionView::Switch(url@),
            Action::Quit => ActionView::Quit,
        }
    }
}

/// What a session holds, as plain values.
pub struct SessionView {
    pub phase: SessionPhase,
    pub room: Seq<char>,
    pub client_count: nat,
    /// The line that the user is typing.
    pub input: Seq<char>,
    /// The height of the viewport, as the last round of the loop gave it.
    pub height: nat,
    pub store: StoreView,
    pub conn: ConnectionView,
    pub pending: PendingView,
    pub finished: bool,
}

impl SessionView {
    /// The session at its start, on a connection that was just opened to
    /// `url`.
    pub open spec fn start(url: Seq<char>) -> SessionView {
        SessionView {
            phase: SessionPhase::AwaitingNickname,
            room: "general"@,
            client_count: 0,
            input: Seq::empty(),
            height: 0,
            store: StoreView::empty(),
            conn: ConnectionView::opened(url),
            pending: PendingView::Idle,
            finished: false,
        }
    }

    /// The scroll position lies in the range that the log and the height of
    /// the viewport allow. This holds of every session that `start` and `step`
    /// lead to.
    pub open spec fn well_formed(self) -> bool {
        self.store.in_range(self.height)
    }

    /// What the viewport shows.
    pub open spec fn visible(self) -> Seq<ChatMessageView> {
        self.store.visible(self.height)
    }

    /// The session that waits for the outcome of a frame write.
    pub open spec fn writing(self) -> SessionView {
        SessionView { pending: PendingView::Write, ..self }
    }

    /// A message arrived: it joins the log, and its client count, unless it
    /// is zero, becomes the known one.
    pub open spec fn receive(self, msg: ChatMessageView) -> SessionView {
        SessionView {
            client_count: if msg.client_count > 0 {
                msg.client_count
            } else {
                self.client_count
            },
            store: self.store.append(msg),
            ..self
        }
    }

    /// A line of the chat phase, which is not blank.
    pub open spec fn command(self, line: Seq<char>) -> (SessionView, ActionView) {
        match classify(line) {
            CommandView::Quit => (SessionView { finished: true, ..self }, ActionView::Quit),
            CommandView::Clear => (
                SessionView { store: self.store.clear(), ..self },
                ActionView::Nothing,
            ),
            CommandView::Join { room, line } => (
                SessionView { room, ..self.writing() },
                ActionView::Write(line),
            ),
            CommandView::ColorCmd(text) => (self.writing(), ActionView::Write(text)),
            CommandView::ServerCmd(url) => (
                SessionView { conn: self.conn.closed(), pending: PendingView::Switch(url), ..self },
                ActionView::Switch(url),
            ),
            CommandView::PlainText(text) => (self.writing(), ActionView::Write(text)),
        }
    }

    /// The user confirmed a line. A blank line does nothing, and neither does
    /// a line that comes while the transport is at work.
    pub open spec fn submit(self, line: Seq<char>) -> (SessionView, ActionView) {
        if self.pending != PendingView::Idle || is_blank(line) {
            (self, ActionView::Nothing)
        } else {
            match self.phase {
                SessionPhase::AwaitingNickname => (
                    SessionView {
                        phase: SessionPhase::AwaitingColor,
                        store: self.store.clear(),
                        ..self.writing()
                    },
                    ActionView::Write(line),
                ),
                SessionPhase::AwaitingColor => (
                    SessionView { phase: SessionPhase::Chatting, ..self.writing() },
                    ActionView::Write(line),
                ),
                SessionPhase::Chatting => self.command(line),
            }
        }
    }

    /// A frame was written, or lost.
    pub open spec fn write_done(self, delivered: bool) -> (SessionView, ActionView) {
        if self.pending != PendingView::Write {
            (self, ActionView::Nothing)
        } else {
            let conn = self.conn.after_write(delivered);
            match self.conn.write_step(delivered) {
                SendStepView::Reconnect(url) => (
                    SessionView { conn, pending: PendingView::Reconnect, ..self },
                    ActionView::Reconnect(url),
                ),
                _ => (SessionView { conn, pending: PendingView::Idle, ..self }, ActionView::Nothing),
            }
        }
    }

    /// A connection was opened, or could not be.
    pub open spec fn connect_done(self, connected: bool) -> (SessionView, ActionView) {
        match self.pending {
            PendingView::Reconnect => (
                SessionView {
                    conn: self.conn.after_reconnect(connected),
                    store: log_after_reconnect(self.store, self.conn, connected),
                    pending: PendingView::Idle,
                    ..self
                },
                ActionView::Nothing,
            ),
            PendingView::Switch(url) => (
                SessionView {
                    conn: self.conn.after_switch(url, connected),
                    store: log_after_switch(self.store, url, connected),
                    pending: PendingView::Idle,
                    ..self
                },
                ActionView::Nothing,
            ),
            _ => (self, ActionView::Nothing),
        }
    }

    /// The line that an event confirms, if it confirms one: the line it
    /// carries, or the line typed so far when the key is enter.
    pub open spec fn confirmed(self, event: EventView) -> Option<Seq<char>> {
        match event {
            EventView::Submit(line) => Some(line),
            EventView::Key(Key::Enter) => Some(self.input),
            _ => None,
        }
    }

    /// The session that has ended.
    pub open spec fn end(self) -> (SessionView, ActionView) {
        (SessionView { finished: true, ..self }, ActionView::Quit)
    }

    /// A round of the loop began: the height is taken down, and the scroll
    /// position is brought back into its range.
    pub open spec fn viewport(self, height: nat) -> SessionView {
        SessionView { height, store: self.store.clamp(height), ..self }
    }

    /// The user pressed a key. A character joins the line, backspace takes
    /// the last one away, enter confirms the line and empties it, the arrows
    /// scroll. While the transport is at work, enter does nothing and the
    /// line stays.
    pub open spec fn key(self, key: Key) -> (SessionView, ActionView) {
        if key.interrupts() {
            self.end()
        } else {
            match key {
                Key::Char { c, control } => (
                    SessionView { input: self.input.push(c), ..self },
                    ActionView::Nothing,
                ),
                Key::Backspace => (
                    SessionView {
                        input: if self.input.len() > 0 {
                            self.input.drop_last()
                        } else {
                            self.input
                        },
                        ..self
                    },
                    ActionView::Nothing,
                ),
                Key::Enter => if self.pending != PendingView::Idle {
                    (self, ActionView::Nothing)
                } else {
                    (SessionView { input: Seq::empty(), ..self }).submit(self.input)
                },
                Key::Up => (
                    SessionView { store: self.store.scroll_up(self.height), ..self },
                    ActionView::Nothing,
                ),
                Key::Down => (
                    SessionView { store: self.store.scroll_down(self.height), ..self },
                    ActionView::Nothing,
                ),
                _ => (self, ActionView::Nothing),
            }
        }
    }

    /// The session after an event, and what the loop is to do. A session that
    /// has ended stays as it is and asks the loop to leave.
    pub open spec fn step(self, event: EventView) -> (SessionView, ActionView) {
        if self.finished {
            (self, ActionView::Quit)
        } else {
            match event {
                EventView::Viewport(height) => (self.viewport(height), ActionView::Nothing),
                EventView::Key(key) => self.key(key),
                EventView::Submit(line) => self.submit(line),
                EventView::Received(msg) => (self.receive(msg), ActionView::Nothing),
                EventView::WriteDone(delivered) => self.write_done(delivered),
                EventView::ConnectDone(connected) => self.connect_done(connected),
            }
        }
    }
}

/// The session after a sequence of events.
pub open spec fn run(s: SessionView, events: Seq<EventView>) -> SessionView
    decreases events.len(),
{
    if events.len() == 0 {
        s
    } else {
        run(s.step(events[0]).0, events.drop_first())
    }
}

/// How often the automatic reconnect succeeds in the course of a sequence of
/// events.
pub open spec fn reconnects(s: SessionView, events: Seq<EventView>) -> nat
    decreases events.len(),
{
    if events.len() == 0 {
        0
    } else {
        let now: nat = if !s.finished && s.pending == PendingView::Reconnect && events[0]
            == EventView::ConnectDone(true) {
            1
        } else {
            0
        };
        now + reconnects(s.step(events[0]).0, events.drop_first())
    }
}

/// The events that hand over the messages of `msgs`, in their order.
pub open spec fn arrivals(msgs: Seq<ChatMessageView>) -> Seq<EventView> {
    msgs.map_values(|msg: ChatMessageView| EventView::Received(msg))
}

/// The session at its start is well formed, and every event leaves a well
/// formed session well formed: the scroll position never leaves its range.
pub proof fn lemma_scroll_stays_in_range(url: Seq<char>, s: SessionView, event: EventView)
    ensures
        SessionView::start(url).well_formed(),
        s.well_formed() ==> s.step(event).0.well_formed(),
        event is Viewport && !s.finished ==> s.step(event).0.well_formed(),
{
}

/// In a well formed session the viewport shows as many messages as fit, and
/// its last message lies as far before the newest as the viewport is scrolled.
pub proof fn lemma_visible_shape(s: SessionView)
    requires
        s.well_formed(),
    ensures
        s.visible().len() == if s.height < s.store.total() {
            s.height
        } else {
            s.store.total()
        },
        0 < s.height < s.store.total() ==> s.visible().last() == s.store.log[s.store.total() - 1
            - s.store.scroll_offset],
{
    lemma_window_shape(s.store.log, s.height, s.store.scroll_offset);
}

/// However long a session lives, its automatic reconnect succeeds at most
/// once, and never again once it has.
pub proof fn lemma_at_most_one_reconnect(s: SessionView, events: Seq<EventView>)
    ensures
        reconnects(s, events) <= 1,
        s.conn.state.reconnect_attempted && s.pending != PendingView::Reconnect ==> reconnects(
            s,
            events,
        ) == 0,
        reconnects(s, events) == 1 ==> run(s, events).conn.state.reconnect_attempted,
    decreases events.len(),
{
    if events.len() > 0 {
        let next = s.step(events[0]).0;
        lemma_at_most_one_reconnect(next, events.drop_first());
        if next.conn.state.reconnect_attempted {
            lemma_reconnect_run(next, events.drop_first());
        }
    }
}

/// A reconnect that has succeeded is remembered through any sequence of
/// events.
pub proof fn lemma_reconnect_run(s: SessionView, events: Seq<EventView>)
    requires
        s.conn.state.reconnect_attempted,
    ensures
        run(s, events).conn.state.reconnect_attempted,
    decreases events.len(),
{
    if events.len() > 0 {
        lemma_reconnect_run(s.step(events[0]).0, events.drop_first());
    }
}

/// Messages join the log in the order in which they are handed over, and
/// change nothing but the log and the client count.
pub proof fn lemma_arrivals_keep_order(s: SessionView, msgs: Seq<ChatMessageView>)
    requires
        !s.finished,
    ensures
        run(s, arrivals(msgs)).store == s.store.append_all(msgs),
        run(s, arrivals(msgs)) == (SessionView {
            store: s.store.append_all(msgs),
            client_count: run(s, arrivals(msgs)).client_count,
            ..s
        }),
    decreases msgs.len(),
{
    let events = arrivals(msgs);
    if msgs.len() == 0 {
        assert(s.store.log + msgs =~= s.store.log);
    } else {
        let next = s.step(events[0]).0;
        assert(events.drop_first() =~= arrivals(msgs.drop_first()));
        lemma_arrivals_keep_order(next, msgs.drop_first());
        assert(s.store.log.push(msgs[0]) + msgs.drop_first() =~= s.store.log + msgs);
    }
}

/// The session after the characters of `line` were typed, one key each.
pub open spec fn typed(s: SessionView, line: Seq<char>) -> SessionView
    decreases line.len(),
{
    if line.len() == 0 {
        s
    } else {
        typed(s, line.drop_last()).step(
            EventView::Key(Key::Char { c: line.last(), control: false }),
        ).0
    }
}

/// The handshake only moves forward, one phase at a time, and only when a
/// line is submitted.
pub proof fn lemma_phase_moves_forward(s: SessionView, event: EventView)
    ensures
        s.phase.rank() <= s.step(event).0.phase.rank() <= s.phase.rank() + 1,
        s.confirmed(event) is None ==> s.step(event).0.phase == s.phase,
        s.phase == SessionPhase::Chatting ==> s.step(event).0.phase == SessionPhase::Chatting,
{
}

/// A session that has ended stays as it is, whatever happens.
pub proof fn lemma_finished_is_final(s: SessionView, event: EventView)
    requires
        s.finished,
    ensures
        s.step(event) == (s, ActionView::Quit),
{
}

/// The keys that leave the session end it from any phase, whatever the
/// transport is doing.
pub proof fn lemma_interrupt_ends(s: SessionView, key: Key)
    requires
        key.interrupts(),
    ensures
        s.step(EventView::Key(key)).0.finished,
        s.step(EventView::Key(key)).1 == ActionView::Quit,
{
}

/// A blank line changes nothing and sends nothing.
pub proof fn lemma_blank_line_is_dropped(s: SessionView, line: Seq<char>)
    requires
        !s.finished,
        is_blank(line),
    ensures
        s.step(EventView::Submit(line)) == (s, ActionView::Nothing),
{
}

/// Once the automatic reconnect has succeeded, the session remembers it for
/// good: no event resets the flag, a `/server` command included.
pub proof fn lemma_reconnect_is_remembered(s: SessionView, event: EventView)
    requires
        s.conn.state.reconnect_attempted,
    ensures
        s.step(event).0.conn.state.reconnect_attempted,
        !(s.step(event).1 is Reconnect),
{
}

/// The session asks for the automatic reconnect only after a frame was lost,
/// and only if it has not reconnected before; it then connects to the last
/// address.
pub proof fn lemma_reconnect_follows_a_lost_frame(s: SessionView, event: EventView)
    requires
        s.step(event).1 is Reconnect,
    ensures
        event == EventView::WriteDone(false),
        s.pending == PendingView::Write,
        !s.conn.state.reconnect_attempted,
        s.step(event).1 == ActionView::Reconnect(s.conn.url),
{
}

/// Only a line that the user confirmed is ever written, and only while the
/// transport is idle: nothing is written again after a reconnect. The
/// handshake sends the line as it was typed, and the chat phase what the
/// command grammar forwards.
pub proof fn lemma_writes_come_from_lines(s: SessionView, event: EventView)
    requires
        s.step(event).1 is Write,
    ensures
        s.pending == PendingView::Idle,
        s.confirmed(event) is Some,
        !is_blank(s.confirmed(event)->0),
        s.step(event).0.pending == PendingView::Write,
        s.phase != SessionPhase::Chatting ==> s.step(event).1 == ActionView::Write(
            s.confirmed(event)->0,
        ),
        s.phase == SessionPhase::Chatting ==> Some(s.step(event).1->Write_0)
            == forwarded(classify(s.confirmed(event)->0)),
{
}

/// Typing a line key by key and pressing enter is confirming that line.
pub proof fn lemma_typed_line(s: SessionView, line: Seq<char>)
    requires
        s.pending == PendingView::Idle,
        s.input.len() == 0,
    ensures
        typed(s, line).step(EventView::Key(Key::Enter)) == s.step(EventView::Submit(line)),
{
    lemma_typed(s, line);
    assert(s.input =~= Seq::<char>::empty());
    assert(s.input + line =~= line);
    assert((SessionView { input: Seq::empty(), ..typed(s, line) }) == s);
}

/// Typing adds to the line and changes nothing else.
pub proof fn lemma_typed(s: SessionView, line: Seq<char>)
    ensures
        typed(s, line) == if s.finished {
            s
        } else {
            SessionView { input: s.input + line, ..s }
        },
    decreases line.len(),
{
    if line.len() > 0 {
        lemma_typed(s, line.drop_last());
        assert(s.input + line =~= (s.input + line.drop_last()).push(line.last()));
    } else {
        assert(s.input + line =~= s.input);
    }
}

/// The known client count changes only when a message reports a count above
/// zero.
pub proof fn lemma_client_count(s: SessionView, event: EventView)
    ensures
        s.step(event).0.client_count != s.client_count ==> event is Received
            && event->Received_0.client_count > 0 && s.step(event).0.client_count
            == event->Received_0.client_count,
        event is Received && event->Received_0.client_count == 0 ==> s.step(event).0.client_count
            == s.client_count,
{
}

/// The log only grows, at its end and in the order of arrival, until it is
/// cleared.
pub proof fn lemma_log_grows_or_clears(s: SessionView, event: EventView)
    ensures
        s.step(event).0.store.log == s.store.log || s.step(event).0.store.log == Seq::<
            ChatMessageView,
        >::empty() || (s.step(event).0.store.log.len() == s.store.log.len() + 1 && s.step(
            event,
        ).0.store.log.drop_last() == s.store.log),
        event is Received && !s.finished ==> s.step(event).0.store.log == s.store.log.push(
            event->Received_0,
        ),
{
    let after = s.step(event).0.store.log;
    if after.len() == s.store.log.len() + 1 {
        assert(after.drop_last() =~= s.store.log);
    }
}

/// A `/server` command with an address is not sent on. It leaves the phase
/// and the flag of the automatic reconnect as they are, and the address of
/// the session changes only if the connect succeeds.
pub proof fn lemma_server_command(s: SessionView, line: Seq<char>, connected: bool)
    requires
        !s.finished,
        s.pending == PendingView::Idle,
        s.phase == SessionPhase::Chatting,
        !is_blank(line),
        classify(line) is ServerCmd,
    ensures
        ({
            let url = classify(line)->ServerCmd_0;
            let (asked, action) = s.step(EventView::Submit(line));
            let (done, after) = asked.step(EventView::ConnectDone(connected));
            &&& action == ActionView::Switch(url)
            &&& after == ActionView::Nothing
            &&& done.phase == s.phase
            &&& done.pending == PendingView::Idle
            &&& done.conn.state.reconnect_attempted == s.conn.state.reconnect_attempted
            &&& done.conn.url == if connected {
                url
            } else {
                s.conn.url
            }
            &&& done.store == log_after_switch(s.store, url, connected)
        }),
{
}

/// A send with its fallback, seen from the session. The line is written;
/// when the frame is lost and the session has not reconnected before, it asks
/// for one connect to the last address; when that succeeds it posts the
/// notice and writes nothing again. A frame that is lost later leads to no
/// further connect.
pub proof fn lemma_send_with_fallback(s: SessionView, line: Seq<char>, next: Seq<char>)
    requires
        !s.finished,
        s.pending == PendingView::Idle,
        s.phase == SessionPhase::Chatting,
        !s.conn.state.reconnect_attempted,
        !is_blank(line),
        !is_blank(next),
        classify(line) is PlainText,
        classify(next) is PlainText,
    ensures
        ({
            let (s1, a1) = s.step(EventView::Submit(line));
            let (s2, a2) = s1.step(EventView::WriteDone(false));
            let (s3, a3) = s2.step(EventView::ConnectDone(true));
            let (s4, a4) = s3.step(EventView::Submit(next));
            let (s5, a5) = s4.step(EventView::WriteDone(false));
            &&& a1 == ActionView::Write(line)
            &&& a2 == ActionView::Reconnect(s.conn.url)
            &&& a3 == ActionView::Nothing
            &&& s3.conn.state.reconnect_attempted
            &&& s3.pending == PendingView::Idle
            &&& s3.store == s.store.append(reconnected_notice())
            &&& a4 == ActionView::Write(next)
            &&& a5 == ActionView::Nothing
            &&& s5.pending == PendingView::Idle
            &&& s5.store == s3.store
        }),
{
}

/// The handshake from end to end. The first line is sent as the nickname and
/// the second as the color, each as it was typed; then the session chats:
/// `/clear` empties the log and sends nothing, and a line of chat text is
/// sent as it was typed.
pub proof fn lemma_handshake(
    s: SessionView,
    nickname: Seq<char>,
    color: Seq<char>,
    text: Seq<char>,
)
    requires
        !s.finished,
        s.pending == PendingView::Idle,
        s.phase == SessionPhase::AwaitingNickname,
        !is_blank(nickname),
        !is_blank(color),
        !is_blank(text),
        classify(text) is PlainText,
    ensures
        ({
            let (s1, a1) = s.step(EventView::Submit(nickname));
            let (s2, a2) = s1.step(EventView::WriteDone(true));
            let (s3, a3) = s2.step(EventView::Submit(color));
            let (s4, a4) = s3.step(EventView::WriteDone(true));
            let (s5, a5) = s4.step(EventView::Submit("/clear"@));
            let (s6, a6) = s5.step(EventView::Submit(text));
            &&& a1 == ActionView::Write(nickname)
            &&& s1.phase == SessionPhase::AwaitingColor
            &&& s1.store.log.len() == 0
            &&& a2 == ActionView::Nothing
            &&& a3 == ActionView::Write(color)
            &&& s3.phase == SessionPhase::Chatting
            &&& a4 == ActionView::Nothing
            &&& a5 == ActionView::Nothing
            &&& s5.store == StoreView::empty()
            &&& s5.phase == SessionPhase::Chatting
            &&& a6 == ActionView::Write(text)
            &&& s6.phase == SessionPhase::Chatting
        }),
{
    reveal_strlit("/clear");
    reveal_strlit("/quit");
    let clear = "/clear"@;
    assert(clear.len() == 6);
    assert(clear[0] == '/');
    assert(!is_space(clear[0]));
    assert(!is_blank(clear));
    assert("/quit"@.len() == 5);
    assert(classify(clear) == CommandView::Clear);
}

/// The state of one session.
pub struct SessionController {
    phase: SessionPhase,
    room: String,
    client_count: usize,
    input: String,
    height: usize,
    store: MessageStore,
    conn: ConnectionManager,
    pending: Pending,
    finished: bool,
}

impl View for SessionController {
    type V = SessionView;

    closed spec fn view(&self) -> SessionView {
        SessionView {
            phase: self.phase,
            room: self.room@,
            client_count: self.client_count as nat,
            input: self.input@,
            height: self.height as nat,
            store: self.store@,
            conn: self.conn@,
            pending: self.pending@,
            finished: self.finished,
        }
    }
}

impl SessionController {
    /// The session at its start, on a connection that was just opened to
    /// `url`.
    pub fn new(url: String) -> (s: Self)
        ensures
            s@ == SessionView::start(url@),
            s@.well_formed(),
    {
        SessionController {
            phase: SessionPhase::AwaitingNickname,
            room: "general".to_owned(),
            client_count: 0,
            input: String::new(),
            height: 0,
            store: MessageStore::new(),
            conn: ConnectionManager::new(url),
            pending: Pending::Idle,
            finished: false,
        }
    }

    /// The step of the handshake that the next line belongs to.
    pub fn phase(&self) -> (p: SessionPhase)
        ensures
            p == self@.phase,
    {
        self.phase
    }

    /// The name of the current room.
    pub fn room(&self) -> (s: &str)
        ensures
            s@ == self@.room,
    {
        self.room.as_str()
    }

    /// The last client count that the relay reported.
    pub fn client_count(&self) -> (n: usize)
        ensures
            n == self@.client_count,
    {
        self.client_count
    }

    /// The line that the user is typing.
    pub fn input(&self) -> (s: &str)
        ensures
            s@ == self@.input,
    {
        self.input.as_str()
    }

    /// The height of the viewport, as the last round of the loop gave it.
    pub fn height(&self) -> (n: usize)
        ensures
            n == self@.height,
    {
        self.height
    }

    /// The message log and its viewport.
    pub fn store(&self) -> (s: &MessageStore)
        ensures
            s@ == self@.store,
    {
        &self.store
    }

    /// The messages that the viewport shows, oldest first.
    pub fn visible_window(&self) -> (w: &[ChatMessage])
        ensures
            views(w@) == self@.visible(),
            w@.len() <= self@.height,
            self@.well_formed() ==> w@.len() == if self@.height < self@.store.total() {
                self@.height
            } else {
                self@.store.total()
            },
    {
        self.store.visible_window(self.height)
    }

    /// The connection slot.
    pub fn connection(&self) -> (c: &ConnectionManager)
        ensures
            c@ == self@.conn,
    {
        &self.conn
    }

    /// What the session waits for from the transport.
    pub fn pending(&self) -> (p: &Pending)
        ensures
            p@ == self@.pending,
    {
        &self.pending
    }

    /// Whether the session has ended.
    pub fn is_finished(&self) -> (b: bool)
        ensures
            b == self@.finished,
    {
        self.finished
    }

    fn is_idle(&self) -> (b: bool)
        ensures
            b == (self@.pending == PendingView::Idle),
    {
        match &self.pending {
            Pending::Idle => true,
            _ => false,
        }
    }

    fn receive(&mut self, msg: ChatMessage)
        ensures
            final(self)@ == old(self)@.receive(msg@),
    {
        if msg.client_count() > 0 {
            self.client_count = msg.client_count();
        }
        self.store.append(msg);
    }

    fn command(&mut self, line: String) -> (action: Action)
        ensures
            (final(self)@, action@) == old(self)@.command(line@),
    {
        match CommandParser::parse(line) {
            Command::Quit => {
                self.finished = true;
                Action::Quit
            },
            Command::Clear => {
                self.store.clear();
                Action::Nothing
            },
            Command::Join { room, line } => {
                self.room = room;
                self.pending = Pending::Write;
                Action::Write(line)
            },
            Command::ColorCmd(text) => {
                self.pending = Pending::Write;
                Action::Write(text)
            },
            Command::ServerCmd(url) => {
                self.conn.close();
                self.pending = Pending::Switch(url.clone());
                Action::Switch(url)
            },
            Command::PlainText(text) => {
                self.pending = Pending::Write;
                Action::Write(text)
            },
        }
    }

    fn submit(&mut self, line: String) -> (action: Action)
        ensures
            (final(self)@, action@) == old(self)@.submit(line@),
    {
        if !self.is_idle() {
            return Action::Nothing;
        }
        let chars = chars_of(line.as_str());
        if blank(chars.as_slice()) {
            return Action::Nothing;
        }
        match self.phase {
            SessionPhase::AwaitingNickname => {
                self.store.clear();
                self.phase = SessionPhase::AwaitingColor;
                self.pending = Pending::Write;
                Action::Write(line)
            },
            SessionPhase::AwaitingColor => {
                self.phase = SessionPhase::Chatting;
                self.pending = Pending::Write;
                Action::Write(line)
            },
            SessionPhase::Chatting => self.command(line),
        }
    }

    fn write_done(&mut self, delivered: bool) -> (action: Action)
        ensures
            (final(self)@, action@) == old(self)@.write_done(delivered),
    {
        match &self.pending {
            Pending::Write => {},
            _ => {
                return Action::Nothing;
            },
        }
        match self.conn.after_write(delivered) {
            SendStep::Reconnect(url) => {
                self.pending = Pending::Reconnect;
                Action::Reconnect(url)
            },
            _ => {
                self.pending = Pending::Idle;
                Action::Nothing
            },
        }
    }

    fn connect_done(&mut self, connected: bool) -> (action: Action)
        ensures
            (final(self)@, action@) == old(self)@.connect_done(connected),
    {
        let mut pending = Pending::Idle;
        core::mem::swap(&mut self.pending, &mut pending);
        match pending {
            Pending::Reconnect => {
                self.conn.after_reconnect(connected, &mut self.store);
            },
            Pending::Switch(url) => {
                self.conn.after_switch(url, connected, &mut self.store);
            },
            other => {
                self.pending = other;
            },
        }
        Action::Nothing
    }

    fn key(&mut self, key: Key) -> (action: Action)
        ensures
            (final(self)@, action@) == old(self)@.key(key),
    {
        match key {
            Key::Esc => {
                self.finished = true;
                Action::Quit
            },
            Key::Char { c, control } => {
                if control && c == 'c' {
                    self.finished = true;
                    Action::Quit
                } else {
                    self.input.push(c);
                    Action::Nothing
                }
            },
            Key::Backspace => {
                self.input.pop();
                Action::Nothing
            },
            Key::Enter => {
                if !self.is_idle() {
                    return Action::Nothing;
                }
                let mut line = String::new();
                core::mem::swap(&mut self.input, &mut line);
                self.submit(line)
            },
            Key::Up => {
                self.store.scroll_up(self.height);
                Action::Nothing
            },
            Key::Down => {
                self.store.scroll_down(self.height);
                Action::Nothing
            },
            Key::Other => Action::Nothing,
        }
    }

    /// Takes one event and says what the loop is to do.
    pub fn step(&mut self, event: Event) -> (action: Action)
        ensures
            (final(self)@, action@) == old(self)@.step(event@),
            old(self)@.well_formed() ==> final(self)@.well_formed(),
    {
        if self.finished {
            return Action::Quit;
        }
        match event {
            Event::Viewport(height) => {
                self.height = height;
                self.store.clamp_scroll(height);
                Action::Nothing
            },
            Event::Key(key) => self.key(key),
            Event::Submit(line) => self.submit(line),
            Event::Received(msg) => {
                self.receive(msg);
                Action::Nothing
            },
            Event::WriteDone(delivered) => self.write_done(delivered),
            Event::ConnectDone(connected) => self.connect_done(connected),
        }
    }
}

} // verus!
