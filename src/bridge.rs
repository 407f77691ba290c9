//! The decisions of the worker that owns the daemon connection.
//!
//! The worker runs a loop: it waits for one event (a connection outcome, a
//! handshake outcome, an inbound read, a queued command, a closed channel),
//! hands it to `Bridge::step`, and performs the action that comes back before
//! it waits again. Inbound framing assumes that one read delivers exactly one
//! complete message; a read of zero bytes means the daemon closed the stream.
use vstd::prelude::*;

use crate::envelope::{action_of, envelope_for, wraps, Envelope};
use crate::message::{DialogIdentity, LibraryItem, PreferenceDiag, UtopiaMessage, UtopiaRequest};

verus! {

/// The state of the one session with the daemon.
#[derive(Debug, Clone, Copy, PartialEq, Eq, Structural)]
pub enum Connection {
    Unestablished,
    Handshaking,
    Active,
    Terminated,
}

/// The action payload of an inbound envelope.
#[derive(Debug)]
pub enum CoreAction {
    ResponseFullGameLibrary(Vec<LibraryItem>),
    ResponseGameUpdate(LibraryItem),
    PreferenceDiagResponse(DialogIdentity, PreferenceDiag),
    /// An action this side does not act on (the handshake acknowledgment
    /// among them), by name.
    Other(String),
}

/// What one read of the socket produced.
#[derive(Debug)]
pub enum Inbound {
    /// The read returned zero bytes: the daemon closed the stream.
    Closed,
    /// The bytes decoded to an envelope with this action.
    Message(CoreAction),
    /// The bytes did not decode to an envelope.
    Undecodable,
    /// The read itself failed.
    ReadFailed,
}

/// What the worker observed.
#[derive(Debug)]
pub enum BridgeEvent {
    /// The socket connected.
    Connected,
    /// The socket could not be reached.
    ConnectFailed,
    /// Writing the handshake token failed.
    HandshakeWriteFailed,
    /// The one read that answers the handshake token.
    HandshakeReply(Inbound),
    /// A read of the socket in steady state.
    Received(Inbound),
    /// A command taken from the queue.
    Command(UtopiaRequest),
    /// The command queue has no senders left.
    CommandsClosed,
    /// Writing an envelope failed; `true` where the stream is known closed.
    WriteFailed(bool),
    /// The presentation side no longer takes notifications.
    NotificationsClosed,
}

/// What the worker does next.
#[derive(Debug)]
pub enum BridgeAction {
    /// Write the handshake token, then read one reply.
    Handshake,
    /// Nothing to do: wait for the next event.
    Continue,
    /// Write this envelope to the socket.
    Write(Envelope),
    /// Hand this notification to the presentation side.
    Deliver(UtopiaMessage),
    /// Log that an inbound message did not decode, and go on.
    LogDecodeError,
    /// Log an inbound action or a command that has no effect, and go on.
    LogIgnored,
    /// Log a failed write to a stream that is still open, and go on.
    LogWriteError,
    /// Leave the loop: no further reads, writes or notifications.
    Stop,
}

/// The notification that an inbound action produces, if any.
pub open spec fn notification_of(a: CoreAction) -> Option<UtopiaMessage> {
    match a {
        CoreAction::ResponseFullGameLibrary(items) => Some(UtopiaMessage::RefreshGameLibrary(items)),
        CoreAction::ResponseGameUpdate(item) => Some(UtopiaMessage::UpdateGame(item)),
        CoreAction::PreferenceDiagResponse(dialog, form) => Some(UtopiaMessage::OpenPrefDiag(dialog, form)),
        CoreAction::Other(_) => None,
    }
}

/// The connection state after event `e` in state `c`.
pub open spec fn next_conn(c: Connection, e: BridgeEvent) -> Connection {
    match c {
        Connection::Unestablished => match e {
            BridgeEvent::Connected => Connection::Handshaking,
            BridgeEvent::ConnectFailed | BridgeEvent::NotificationsClosed => Connection::Terminated,
            _ => c,
        },
        Connection::Handshaking => match e {
            BridgeEvent::HandshakeReply(Inbound::Message(_)) => Connection::Active,
            BridgeEvent::HandshakeReply(_) | BridgeEvent::HandshakeWriteFailed
            | BridgeEvent::NotificationsClosed => Connection::Terminated,
            _ => c,
        },
        Connection::Active => match e {
            BridgeEvent::Received(Inbound::Closed) | BridgeEvent::CommandsClosed
            | BridgeEvent::WriteFailed(true) | BridgeEvent::NotificationsClosed => Connection::Terminated,
            _ => c,
        },
        Connection::Terminated => c,
    }
}

/// The notification that ends a session.
pub open spec fn disconnect() -> BridgeAction {
    BridgeAction::Deliver(UtopiaMessage::Disconnect)
}

/// `a` is the action for event `e` in state `c`.
pub open spec fn reaction(c: Connection, e: BridgeEvent, a: BridgeAction) -> bool {
    match c {
        Connection::Unestablished => match e {
            BridgeEvent::Connected => a is Handshake,
            BridgeEvent::ConnectFailed => a == disconnect(),
            BridgeEvent::NotificationsClosed => a is Stop,
            _ => a is Continue,
        },
        Connection::Handshaking => match e {
            BridgeEvent::HandshakeReply(Inbound::Message(_)) => a is Continue,
            BridgeEvent::HandshakeReply(_) | BridgeEvent::HandshakeWriteFailed => a == disconnect(),
            BridgeEvent::NotificationsClosed => a is Stop,
            _ => a is Continue,
        },
        Connection::Active => match e {
            BridgeEvent::Received(Inbound::Closed) | BridgeEvent::CommandsClosed
            | BridgeEvent::WriteFailed(true) => a == disconnect(),
            BridgeEvent::NotificationsClosed => a is Stop,
            BridgeEvent::Received(Inbound::Message(m)) => match notification_of(m) {
                Some(n) => a == BridgeAction::Deliver(n),
                None => a is LogIgnored,
            },
            BridgeEvent::Received(_) => a is LogDecodeError,
            BridgeEvent::Command(r) => match action_of(r) {
                Some(x) => a matches BridgeAction::Write(env) && wraps(env, x),
                None => a is LogIgnored,
            },
            BridgeEvent::WriteFailed(false) => a is LogWriteError,
            _ => a is Continue,
        },
        Connection::Terminated => a is Stop,
    }
}

/// The notification that an inbound action produces, if any.
pub fn notification_for(a: CoreAction) -> (n: Option<UtopiaMessage>)
    ensures
        n == notification_of(a),
{
    match a {
        CoreAction::ResponseFullGameLibrary(items) => Some(UtopiaMessage::RefreshGameLibrary(items)),
        CoreAction::ResponseGameUpdate(item) => Some(UtopiaMessage::UpdateGame(item)),
        CoreAction::PreferenceDiagResponse(dialog, form) => Some(UtopiaMessage::OpenPrefDiag(dialog, form)),
        CoreAction::Other(_) => None,
    }
}

/// The worker's side of the session. It alone reads and writes the socket,
/// so the order of its actions is the order on the wire.
#[derive(Debug)]
pub struct Bridge {
    conn: Connection,
}

impl Bridge {
    pub closed spec fn view(&self) -> Connection {
        self.conn
    }

    /// A session that has not connected yet.
    pub fn new() -> (b: Self)
        ensures
            b@ == Connection::Unestablished,
    {
        Bridge { conn: Connection::Unestablished }
    }

    pub fn connection(&self) -> (c: Connection)
        ensures
            c == self@,
    {
        self.conn
    }

    /// Whether the session has ended for good.
    pub fn is_terminated(&self) -> (b: bool)
        ensures
            b == (self@ == Connection::Terminated),
    {
        self.conn == Connection::Terminated
    }

    /// Handles one event: moves the session on and says what to do.
    pub fn step(&mut self, e: BridgeEvent) -> (a: BridgeAction)
        ensures
            final(self)@ == next_conn(old(self)@, e),
            reaction(old(self)@, e, a),
    {
        match self.conn {
            Connection::Unestablished => match e {
                BridgeEvent::Connected => {
                    self.conn = Connection::Handshaking;
                    BridgeAction::Handshake
                },
                BridgeEvent::ConnectFailed => {
                    self.conn = Connection::Terminated;
                    BridgeAction::Deliver(UtopiaMessage::Disconnect)
                },
                BridgeEvent::NotificationsClosed => {
                    self.conn = Connection::Terminated;
                    BridgeAction::Stop
                },
                _ => BridgeAction::Continue,
            },
            Connection::Handshaking => match e {
                BridgeEvent::HandshakeReply(Inbound::Message(_)) => {
                    self.conn = Connection::Active;
                    BridgeAction::Continue
                },
                BridgeEvent::HandshakeReply(_) | BridgeEvent::HandshakeWriteFailed => {
                    self.conn = Connection::Terminated;
                    BridgeAction::Deliver(UtopiaMessage::Disconnect)
                },
                BridgeEvent::NotificationsClosed => {
                    self.conn = Connection::Terminated;
                    BridgeAction::Stop
                },
                _ => BridgeAction::Continue,
            },
            Connection::Active => match e {
                BridgeEvent::Received(Inbound::Closed) | BridgeEvent::CommandsClosed
                | BridgeEvent::WriteFailed(true) => {
                    self.conn = Connection::Terminated;
                    BridgeAction::Deliver(UtopiaMessage::Disconnect)
                },
                BridgeEvent::NotificationsClosed => {
                    self.conn = Connection::Terminated;
                    BridgeAction::Stop
                },
                BridgeEvent::Received(Inbound::Message(m)) => match notification_for(m) {
                    Some(n) => BridgeAction::Deliver(n),
                    None => BridgeAction::LogIgnored,
                },
                BridgeEvent::Received(_) => BridgeAction::LogDecodeError,
                BridgeEvent::Command(r) => match envelope_for(r) {
                    Some(env) => BridgeAction::Write(env),
                    None => BridgeAction::LogIgnored,
                },
                BridgeEvent::WriteFailed(_) => BridgeAction::LogWriteError,
                _ => BridgeAction::Continue,
            },
            Connection::Terminated => BridgeAction::Stop,
        }
    }
}

} // verus!
