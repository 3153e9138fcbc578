//! The connection slot and its reconnect-once policy.
//!
//! The transport itself lives outside this library. What is decided here is
//! what follows each of its outcomes: a frame that could not be written leads
//! to one automatic reconnect, and to no second one for as long as the manager
//! lives; a reconnect that succeeds does not send the lost frame again.

use crate::message::{connect_failed_notice, connected_notice, reconnected_notice, ChatMessage};
use crate::store::{MessageStore, StoreView};
use vstd::prelude::*;

verus! {

/// Whether the transport is believed to be open.
#[derive(Clone, Copy, Debug, PartialEq, Eq, Structural)]
pub enum LinkState {
    Connected,
    Disconnected,
}

/// The state of the connection slot.
#[derive(Clone, Copy, Debug, PartialEq, Eq, Structural)]
pub struct ConnectionState {
    pub link: LinkState,
    /// Set by the first automatic reconnect that succeeds, and never reset.
    pub reconnect_attempted: bool,
}

/// What follows the attempt to write a frame, as plain values.
pub enum SendStepView {
    Sent,
    Reconnect(Seq<char>),
    Dropped,
}

/// What follows the attempt to write a frame.
#[derive(Debug, PartialEq, Eq)]
pub enum SendStep {
    /// The frame was written: the send has succeeded.
    Sent,
    /// The frame was lost; a connection to this address is to be opened.
    Reconnect(String),
    /// The frame was lost and no reconnect is due: the send has failed.
    Dropped,
}

impl View for SendStep {
    type V = SendStepView;

    open spec fn view(&self) -> SendStepView {
        match self {
            SendStep::Sent => SendStepView::Sent,
            SendStep::Reconnect(url) => SendStepView::Reconnect(url@),
            SendStep::Dropped => SendStepView::Dropped,
        }
    }
}

/// What a connection manager holds, as plain values.
pub struct ConnectionView {
    pub state: ConnectionState,
    /// The address of the last connection that was opened.
    pub url: Seq<char>,
}

impl ConnectionView {
    /// The manager of a connection that was just opened to `url`.
    pub open spec fn opened(url: Seq<char>) -> ConnectionView {
        ConnectionView {
            state: ConnectionState { link: LinkState::Connected, reconnect_attempted: false },
            url,
        }
    }

    /// The manager after a frame was written (`delivered`) or lost.
    pub open spec fn after_write(self, delivered: bool) -> ConnectionView {
        ConnectionView {
            state: ConnectionState {
                link: if delivered {
                    LinkState::Connected
                } else {
                    LinkState::Disconnected
                },
                ..self.state
            },
            ..self
        }
    }

    /// What follows a frame that was written (`delivered`) or lost.
    pub open spec fn write_step(self, delivered: bool) -> SendStepView {
        if delivered {
            SendStepView::Sent
        } else if !self.state.reconnect_attempted {
            SendStepView::Reconnect(self.url)
        } else {
            SendStepView::Dropped
        }
    }

    /// The manager after the automatic reconnect succeeded (`connected`) or
    /// failed.
    pub open spec fn after_reconnect(self, connected: bool) -> ConnectionView {
        if connected {
            ConnectionView {
                state: ConnectionState { link: LinkState::Connected, reconnect_attempted: true },
                ..self
            }
        } else {
            ConnectionView {
                state: ConnectionState { link: LinkState::Disconnected, ..self.state },
                ..self
            }
        }
    }

    /// The manager after the old connection was closed to make room for
    /// another.
    pub open spec fn closed(self) -> ConnectionView {
        ConnectionView {
            state: ConnectionState { link: LinkState::Disconnected, ..self.state },
            ..self
        }
    }

    /// The manager after a connection to `url` was opened on request
    /// (`connected`), or could not be.
    pub open spec fn after_switch(self, url: Seq<char>, connected: bool) -> ConnectionView {
        if connected {
            ConnectionView {
                state: ConnectionState { link: LinkState::Connected, ..self.state },
                url,
            }
        } else {
            ConnectionView {
                state: ConnectionState { link: LinkState::Disconnected, ..self.state },
                ..self
            }
        }
    }
}

/// The log after the automatic reconnect succeeded or failed.
pub open spec fn log_after_reconnect(
    store: StoreView,
    conn: ConnectionView,
    connected: bool,
) -> StoreView {
    if connected {
        store.append(reconnected_notice())
    } else {
        store.append(connect_failed_notice(conn.url))
    }
}

/// The log after a connection to `url` was opened on request, or could not be.
pub open spec fn log_after_switch(store: StoreView, url: Seq<char>, connected: bool) -> StoreView {
    if connected {
        store.append(connected_notice(url))
    } else {
        store.append(connect_failed_notice(url))
    }
}

/// One whole send: what it returned, how often it tried to connect, and what
/// it left behind.
pub struct SendRun {
    pub conn: ConnectionView,
    pub store: StoreView,
    pub returned: bool,
    pub connects: nat,
}

/// A send on a transport that writes the frame or not (`delivered`) and that,
/// if asked to connect, connects or not (`connected`).
pub open spec fn send_run(
    conn: ConnectionView,
    store: StoreView,
    delivered: bool,
    connected: bool,
) -> SendRun {
    let written = conn.after_write(delivered);
    match conn.write_step(delivered) {
        SendStepView::Sent => SendRun { conn: written, store, returned: true, connects: 0 },
        SendStepView::Dropped => SendRun { conn: written, store, returned: false, connects: 0 },
        SendStepView::Reconnect(url) => SendRun {
            conn: written.after_reconnect(connected),
            store: log_after_reconnect(store, written, connected),
            returned: connected,
            connects: 1,
        },
    }
}

/// The reconnect-once policy. A send that fails on a manager that has not
/// reconnected yet tries to connect exactly once, to the last address; if
/// that succeeds the send returns true and the manager has reconnected. A
/// later send that fails on the same manager returns false and does not try
/// to connect, whatever the transport would have answered.
pub proof fn lemma_reconnect_once(
    conn: ConnectionView,
    store: StoreView,
    connected: bool,
    later: bool,
)
    requires
        !conn.state.reconnect_attempted,
    ensures
        conn.write_step(false) == SendStepView::Reconnect(conn.url),
        send_run(conn, store, false, connected).connects == 1,
        send_run(conn, store, false, connected).returned == connected,
        send_run(conn, store, false, connected).conn.state.reconnect_attempted == connected,
        connected ==> {
            let first = send_run(conn, store, false, true);
            let second = send_run(first.conn, first.store, false, later);
            &&& first.returned
            &&& first.store == store.append(reconnected_notice())
            &&& !second.returned
            &&& second.connects == 0
            &&& second.store == first.store
            &&& second.conn.state.reconnect_attempted
        },
{
}

/// A send never tries to connect more than once, and never when the frame was
/// written or the manager has reconnected before.
pub proof fn lemma_send_connects(
    conn: ConnectionView,
    store: StoreView,
    delivered: bool,
    connected: bool,
)
    ensures
        send_run(conn, store, delivered, connected).connects <= 1,
        send_run(conn, store, delivered, connected).connects == 1 <==> !delivered
            && !conn.state.reconnect_attempted,
        send_run(conn, store, delivered, connected).returned <==> delivered || (
        !conn.state.reconnect_attempted && connected),
        conn.state.reconnect_attempted ==> send_run(
            conn,
            store,
            delivered,
            connected,
        ).conn.state.reconnect_attempted,
        send_run(conn, store, delivered, connected).conn.url == conn.url,
{
}

/// Owns the state of the connection slot and the address last connected to.
pub struct ConnectionManager {
    state: ConnectionState,
    url: String,
}

impl View for ConnectionManager {
    type V = ConnectionView;

    closed spec fn view(&self) -> ConnectionView {
        ConnectionView { state: self.state, url: self.url@ }
    }
}

impl ConnectionManager {
    /// The manager of a connection that was just opened to `url`.
    pub fn new(url: String) -> (m: Self)
        ensures
            m@ == ConnectionView::opened(url@),
    {
        ConnectionManager {
            state: ConnectionState { link: LinkState::Connected, reconnect_attempted: false },
            url,
        }
    }

    /// The state of the slot.
    pub fn state(&self) -> (s: ConnectionState)
        ensures
            s == self@.state,
    {
        self.state
    }

    /// The address of the last connection that was opened.
    pub fn url(&self) -> (s: &str)
        ensures
            s@ == self@.url,
    {
        self.url.as_str()
    }

    /// Takes note of a frame that was written (`delivered`) or lost, and says
    /// what follows.
    pub fn after_write(&mut self, delivered: bool) -> (step: SendStep)
        ensures
            final(self)@ == old(self)@.after_write(delivered),
            step@ == old(self)@.write_step(delivered),
    {
        if delivered {
            self.state.link = LinkState::Connected;
            SendStep::Sent
        } else {
            self.state.link = LinkState::Disconnected;
            if !self.state.reconnect_attempted {
                SendStep::Reconnect(self.url.clone())
            } else {
                SendStep::Dropped
            }
        }
    }

    /// Takes note of how the automatic reconnect ended, posts the notice, and
    /// returns what the send returns.
    pub fn after_reconnect(&mut self, connected: bool, store: &mut MessageStore) -> (sent: bool)
        ensures
            final(self)@ == old(self)@.after_reconnect(connected),
            final(store)@ == log_after_reconnect(old(store)@, old(self)@, connected),
            sent == connected,
    {
        if connected {
            self.state.link = LinkState::Connected;
            self.state.reconnect_attempted = true;
            store.append(ChatMessage::reconnected());
        } else {
            self.state.link = LinkState::Disconnected;
            store.append(ChatMessage::connect_failed(self.url.as_str()));
        }
        connected
    }

    /// Takes note that the connection was closed to make room for another.
    pub fn close(&mut self)
        ensures
            final(self)@ == old(self)@.closed(),
    {
        self.state.link = LinkState::Disconnected;
    }

    /// Takes note of how the connect to `url` that the user asked for ended,
    /// and posts the notice.
    pub fn after_switch(&mut self, url: String, connected: bool, store: &mut MessageStore)
        ensures
            final(self)@ == old(self)@.after_switch(url@, connected),
            final(store)@ == log_after_switch(old(store)@, url@, connected),
    {
        if connected {
            store.append(ChatMessage::connected(url.as_str()));
            self.state.link = LinkState::Connected;
            self.url = url;
        } else {
            store.append(ChatMessage::connect_failed(url.as_str()));
            self.state.link = LinkState::Disconnected;
        }
    }
}

} // verus!
