//! What one connection does next.
//!
//! A connection finds its room, subscribes to what the room publishes, and
//! only then enters as a viewer, so that the snapshot published on its own
//! arrival reaches it. While it streams it answers three kinds of events:
//! silence, with a ping; a frame from its peer, with a command for the room;
//! a published snapshot, with a frame for its peer. When it ends, however it
//! ends, the viewer is taken out of the room, and if that leaves the room
//! empty the connection waits out the grace period and asks for the room to
//! be deleted.
//!
//! The session decides; it does not act. Whoever drives it performs the
//! [`Action`] it returns and reports what came of it as the next [`Event`].

use crate::encoder::{
    can_write, diff, document_text, frame_text, message_for, EncodeError, Message, MessageView,
};
use crate::room::{Command, CommandView};
use vstd::prelude::*;

verus! {

/// How long a connection may stay silent before it is pinged, in seconds.
pub const KEEPALIVE_IDLE_SECS: u64 = 30;

/// How many published snapshots a connection may fall behind before it
/// starts to miss the oldest.
pub const PUBLISH_BACKLOG: usize = 100;

/// How far a connection has come.
#[derive(Clone, Copy, PartialEq, Eq, Debug, Structural)]
pub enum Phase {
    /// Nothing has happened yet.
    Created,
    /// The room is being looked up or created.
    Resolving,
    /// The room is known and the subscription is being made.
    Subscribing,
    /// The subscription stands and the viewer is being let in.
    Joining,
    /// The viewer is in the room.
    Streaming,
    /// The viewer is being taken out of the room.
    Leaving,
    /// The room was left empty and its grace period is running.
    Waiting,
    /// The room is being asked to go.
    Reaping,
    /// Nothing more will happen.
    Closed,
}

/// A frame from the peer, as far as the session cares.
#[derive(Clone, Debug, PartialEq, Eq)]
pub enum Inbound {
    /// A text frame that holds a command.
    Command(Command),
    /// A text frame that holds something else.
    Undecodable,
    /// A frame that is not text.
    Ignored,
    /// The peer closed the connection.
    Closed,
    /// Reading from the connection failed.
    Failed,
}

/// [`Inbound`] with the command as sequences of characters.
pub enum InboundView {
    Command(CommandView),
    Undecodable,
    Ignored,
    Closed,
    Failed,
}

impl View for Inbound {
    type V = InboundView;

    open spec fn view(&self) -> InboundView {
        match self {
            Inbound::Command(cmd) => InboundView::Command(cmd@),
            Inbound::Undecodable => InboundView::Undecodable,
            Inbound::Ignored => InboundView::Ignored,
            Inbound::Closed => InboundView::Closed,
            Inbound::Failed => InboundView::Failed,
        }
    }
}

/// What happened.
pub enum Event {
    /// The connection was accepted.
    Opened,
    /// The room exists, as the instance given.
    Resolved(u64),
    /// The subscription stands.
    Subscribed,
    /// The viewer was let in.
    Joined,
    /// The viewer could not be let in.
    JoinFailed,
    /// Nothing was sent for [`KEEPALIVE_IDLE_SECS`].
    IdleTimeout,
    /// The peer sent a frame, or stopped sending.
    Inbound(Inbound),
    /// The room could not carry out the command handed to it.
    CommandFailed,
    /// The room published a snapshot.
    Snapshot(serde_json::Value),
    /// Snapshots were published that this connection never saw.
    Lagged,
    /// The room will publish no more.
    ChannelClosed,
    /// A frame could not be sent.
    SendFailed,
    /// The viewer was taken out of the room.
    Left { room_empty: bool },
    /// The viewer could not be taken out of the room.
    LeaveFailed,
    /// The grace period is over.
    GraceElapsed,
    /// The room was asked to go.
    Reaped,
}

/// [`Event`] with texts as sequences of characters.
pub enum EventView {
    Opened,
    Resolved(u64),
    Subscribed,
    Joined,
    JoinFailed,
    IdleTimeout,
    Inbound(InboundView),
    CommandFailed,
    /// The snapshot, as its compact text.
    Snapshot(Seq<char>),
    Lagged,
    ChannelClosed,
    SendFailed,
    Left { room_empty: bool },
    LeaveFailed,
    GraceElapsed,
    Reaped,
}

impl View for Event {
    type V = EventView;

    open spec fn view(&self) -> EventView {
        match self {
            Event::Opened => EventView::Opened,
            Event::Resolved(instance) => EventView::Resolved(*instance),
            Event::Subscribed => EventView::Subscribed,
            Event::Joined => EventView::Joined,
            Event::JoinFailed => EventView::JoinFailed,
            Event::IdleTimeout => EventView::IdleTimeout,
            Event::Inbound(frame) => EventView::Inbound(frame@),
            Event::CommandFailed => EventView::CommandFailed,
            Event::Snapshot(document) => EventView::Snapshot(document_text(*document)),
            Event::Lagged => EventView::Lagged,
            Event::ChannelClosed => EventView::ChannelClosed,
            Event::SendFailed => EventView::SendFailed,
            Event::Left { room_empty } => EventView::Left { room_empty: *room_empty },
            Event::LeaveFailed => EventView::LeaveFailed,
            Event::GraceElapsed => EventView::GraceElapsed,
            Event::Reaped => EventView::Reaped,
        }
    }
}

/// What to do next. Unless it says otherwise, the one who did it then waits
/// for the next event.
#[derive(Clone, Debug, PartialEq, Eq)]
pub enum Action {
    /// Look the room up, creating it if need be.
    Resolve,
    /// Subscribe to what the room publishes.
    Subscribe,
    /// Let the viewer into the room and publish.
    AddViewer,
    /// Do nothing.
    Await,
    /// Send a ping.
    SendPing,
    /// Send a text frame.
    Send(Message),
    /// Hand the command to the room and publish.
    Apply(Command),
    /// Take the viewer out of the room and publish.
    RemoveViewer,
    /// Sleep for the grace period.
    WaitGrace,
    /// Ask for the instance of the room to be deleted if its grace period has run out.
    Reap(u64),
    /// Stop. No event follows.
    Finish,
}

/// [`Action`] with texts as sequences of characters.
pub enum ActionView {
    Resolve,
    Subscribe,
    AddViewer,
    Await,
    SendPing,
    Send(MessageView),
    Apply(CommandView),
    RemoveViewer,
    WaitGrace,
    Reap(u64),
    Finish,
}

impl View for Action {
    type V = ActionView;

    open spec fn view(&self) -> ActionView {
        match self {
            Action::Resolve => ActionView::Resolve,
            Action::Subscribe => ActionView::Subscribe,
            Action::AddViewer => ActionView::AddViewer,
            Action::Await => ActionView::Await,
            Action::SendPing => ActionView::SendPing,
            Action::Send(message) => ActionView::Send(message@),
            Action::Apply(cmd) => ActionView::Apply(cmd@),
            Action::RemoveViewer => ActionView::RemoveViewer,
            Action::WaitGrace => ActionView::WaitGrace,
            Action::Reap(instance) => ActionView::Reap(*instance),
            Action::Finish => ActionView::Finish,
        }
    }
}

/// The state of one connection.
pub struct ConnectionSession {
    phase: Phase,
    instance: Option<u64>,
    last_sent: Option<serde_json::Value>,
}

/// The mathematical state of a connection.
pub struct SessionView {
    pub phase: Phase,
    /// Which instance of the room the connection found.
    pub instance: Option<u64>,
    /// The compact text of the snapshot last sent.
    pub last_sent: Option<Seq<char>>,
}

impl View for ConnectionSession {
    type V = SessionView;

    closed spec fn view(&self) -> SessionView {
        SessionView {
            phase: self.phase,
            instance: self.instance,
            last_sent: match self.last_sent {
                Some(document) => Some(document_text(document)),
                None => None,
            },
        }
    }
}

impl SessionView {
    /// A connection to which nothing has happened.
    pub open spec fn fresh() -> SessionView {
        SessionView { phase: Phase::Created, instance: None, last_sent: None }
    }

    /// The session in another phase.
    pub open spec fn moved_to(self, phase: Phase) -> SessionView {
        SessionView { phase, ..self }
    }

    /// How the session gives up: a viewer that is in the room is taken out of
    /// it first; anyone else just stops.
    pub open spec fn wound_down(self) -> (SessionView, ActionView) {
        if self.phase == Phase::Streaming {
            (self.moved_to(Phase::Leaving), ActionView::RemoveViewer)
        } else {
            (self.moved_to(Phase::Closed), ActionView::Finish)
        }
    }

    /// Whether `event` is a snapshot that reaches the session while it streams
    /// and whose frame cannot be written.
    pub open spec fn cannot_frame(self, event: EventView) -> bool {
        &&& self.phase == Phase::Streaming
        &&& event matches EventView::Snapshot(text)
        &&& !can_write(frame_text(self.last_sent, text))
    }

    /// The session after `event`, and what is to be done: what
    /// [`SessionView::after`] says, but for a snapshot whose frame cannot be
    /// written, on which the session gives up.
    pub open spec fn stepped(self, event: EventView) -> (SessionView, ActionView) {
        if self.cannot_frame(event) {
            self.wound_down()
        } else {
            self.after(event)
        }
    }

    /// The session after `event`, and what is to be done, where any frame that
    /// has to be written can be written.
    pub open spec fn after(self, event: EventView) -> (SessionView, ActionView) {
        match (self.phase, event) {
            (Phase::Created, EventView::Opened) => (
                self.moved_to(Phase::Resolving),
                ActionView::Resolve,
            ),
            (Phase::Resolving, EventView::Resolved(instance)) => (
                SessionView { phase: Phase::Subscribing, instance: Some(instance), ..self },
                ActionView::Subscribe,
            ),
            (Phase::Subscribing, EventView::Subscribed) => (
                self.moved_to(Phase::Joining),
                ActionView::AddViewer,
            ),
            (Phase::Joining, EventView::Joined) => (
                self.moved_to(Phase::Streaming),
                ActionView::Await,
            ),
            (Phase::Streaming, EventView::IdleTimeout) => (self, ActionView::SendPing),
            (Phase::Streaming, EventView::Inbound(InboundView::Command(cmd))) => (
                self,
                ActionView::Apply(cmd),
            ),
            (Phase::Streaming, EventView::Inbound(InboundView::Ignored)) => (
                self,
                ActionView::Await,
            ),
            (Phase::Streaming, EventView::Lagged) => (self, ActionView::Await),
            (Phase::Streaming, EventView::Snapshot(text)) => (
                SessionView { last_sent: Some(text), ..self },
                ActionView::Send(message_for(self.last_sent, text)),
            ),
            (Phase::Leaving, EventView::Left { room_empty: true }) => (
                self.moved_to(Phase::Waiting),
                ActionView::WaitGrace,
            ),
            (Phase::Waiting, EventView::GraceElapsed) => match self.instance {
                Some(instance) => (self.moved_to(Phase::Reaping), ActionView::Reap(instance)),
                None => self.wound_down(),
            },
            _ => self.wound_down(),
        }
    }
}

impl ConnectionSession {
    /// A connection to which nothing has happened.
    pub fn new() -> (session: ConnectionSession)
        ensures
            session@ == SessionView::fresh(),
    {
        ConnectionSession { phase: Phase::Created, instance: None, last_sent: None }
    }

    /// How far the connection has come.
    pub fn phase(&self) -> (phase: Phase)
        ensures
            phase == self@.phase,
    {
        self.phase
    }

    /// Which instance of the room the connection found.
    pub fn instance(&self) -> (instance: Option<u64>)
        ensures
            instance == self@.instance,
    {
        self.instance
    }

    /// Whether a snapshot has been sent.
    pub fn has_sent(&self) -> (yes: bool)
        ensures
            yes == self@.last_sent is Some,
    {
        self.last_sent.is_some()
    }

    /// Gives up.
    fn wind_down(&mut self) -> (action: Action)
        ensures
            (final(self)@, action@) == old(self)@.wound_down(),
    {
        if self.phase == Phase::Streaming {
            self.phase =Phase::Leaving;
            Action::RemoveViewer
        } else {
            self.phase = Phase::Closed;
            Action::Finish
        }
    }

    /// Takes note of what encoding `document` gave: a frame to send, after
    /// which `document` is what was last sent, or a failure, on which the
    /// session gives up.
    pub fn on_encoded(&mut self, document: serde_json::Value, encoded: Result<Message, EncodeError>) -> (action:
        Action)
        ensures
            match encoded {
                Ok(message) => action@ == ActionView::Send(message@) && final(self)@ == (SessionView {
                    last_sent: Some(document_text(document)),
                    ..old(self)@
                }),
                Err(_) => (final(self)@, action@) == old(self)@.wound_down(),
            },
    {
        match encoded {
            Ok(message) => {
                self.last_sent = Some(document);
                Action::Send(message)
            },
            Err(_) => self.wind_down(),
        }
    }

    /// Takes `event` in and says what to do next: [`SessionView::stepped`].
    ///
    /// A snapshot that reaches a streaming session is answered with a frame,
    /// the first whole and every later one as edits against the one sent
    /// before, and is then what was last sent. Only where the frame's text
    /// cannot be written does the session give up instead.
    pub fn step(&mut self, event: Event) -> (action: Action)
        ensures
            (final(self)@, action@) == old(self)@.stepped(event@),
    {
        match (self.phase, event) {
            (Phase::Created, Event::Opened) => {
                self.phase = Phase::Resolving;
                Action::Resolve
            },
            (Phase::Resolving, Event::Resolved(instance)) => {
                self.phase = Phase::Subscribing;
                self.instance = Some(instance);
                Action::Subscribe
            },
            (Phase::Subscribing, Event::Subscribed) => {
                self.phase = Phase::Joining;
                Action::AddViewer
            },
            (Phase::Joining, Event::Joined) => {
                self.phase = Phase::Streaming;
                Action::Await
            },
            (Phase::Streaming, Event::IdleTimeout) => Action::SendPing,
            (Phase::Streaming, Event::Inbound(Inbound::Command(cmd))) => Action::Apply(cmd),
            (Phase::Streaming, Event::Inbound(Inbound::Ignored)) => Action::Await,
            (Phase::Streaming, Event::Lagged) => Action::Await,
            (Phase::Streaming, Event::Snapshot(document)) => {
                let encoded = diff(self.last_sent.as_ref(), &document);
                self.on_encoded(document, encoded)
            },
            (Phase::Leaving, Event::Left { room_empty: true }) => {
                self.phase = Phase::Waiting;
                Action::WaitGrace
            },
            (Phase::Waiting, Event::GraceElapsed) => match self.instance {
                Some(instance) => {
                    self.phase = Phase::Reaping;
                    Action::Reap(instance)
                },
                None => self.wind_down(),
            },
            _ => self.wind_down(),
        }
    }
}

} // verus!
