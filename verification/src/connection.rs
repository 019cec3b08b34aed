//! The live connection handler: what one viewer connection does with what
//! arrives from the viewer and from its subscription.
//!
//! A connection runs two activities side by side. The inbound one reads
//! frames from the viewer; the outbound one forwards broadcast events to the
//! viewer. The connection is over as soon as either of them ends.

use vstd::prelude::*;

verus! {

/// Where a connection stands in its life.
#[derive(Debug, Clone, Copy, PartialEq, Eq, Structural)]
pub enum ConnectionState {
    /// Accepted, not yet subscribed.
    Connected,
    /// Subscribed, with both activities running.
    Streaming,
    /// Over: both activities have ended and the subscription is released.
    Closed,
}

/// What the inbound activity got from the viewer.
#[derive(Debug, Clone, Copy, PartialEq, Eq, Structural)]
pub enum InboundEvent {
    Text,
    Binary,
    Ping,
    Pong,
    /// The viewer asked to close.
    Close,
    /// The transport failed.
    TransportError,
    /// The transport has no more frames.
    EndOfStream,
}

/// Whether an activity goes on.
#[derive(Debug, Clone, Copy, PartialEq, Eq, Structural)]
pub enum Flow {
    Continue,
    Terminate,
}

/// What the outbound activity got from its subscription.
#[derive(Debug)]
pub enum OutboundEvent {
    /// An event, with its wire form or `None` where it could not be
    /// serialized.
    Received { serialized: Option<String> },
    /// The subscription fell too far behind and lost events.
    Lagged,
    /// The broadcaster is gone.
    ChannelClosed,
}

/// What the outbound activity does next.
#[derive(Debug)]
pub enum OutboundAction {
    /// Send the message to the viewer.
    Forward(String),
    /// Send nothing and wait for the next event.
    Skip,
    /// End the activity.
    Terminate,
}

/// Whether a frame from the viewer ends the inbound activity.
pub open spec fn ends_inbound(event: InboundEvent) -> bool {
    event == InboundEvent::Close || event == InboundEvent::TransportError || event
        == InboundEvent::EndOfStream
}

/// What the outbound activity does with what its subscription produced: an
/// event that was serialized is forwarded, one that was not is skipped, and
/// the end of the subscription ends the activity.
pub open spec fn outbound_decision(event: OutboundEvent) -> OutboundAction {
    match event {
        OutboundEvent::Received { serialized: Some(message) } => OutboundAction::Forward(message),
        OutboundEvent::Received { serialized: None } => OutboundAction::Skip,
        OutboundEvent::Lagged => OutboundAction::Terminate,
        OutboundEvent::ChannelClosed => OutboundAction::Terminate,
    }
}

/// What the inbound activity does after a frame from the viewer: it ends on
/// a close frame, a transport error and the end of the stream, and goes on
/// after anything else.
pub fn inbound_step(event: InboundEvent) -> (flow: Flow)
    ensures
        flow == (if ends_inbound(event) {
            Flow::Terminate
        } else {
            Flow::Continue
        }),
{
    match event {
        InboundEvent::Close => Flow::Terminate,
        InboundEvent::TransportError => Flow::Terminate,
        InboundEvent::EndOfStream => Flow::Terminate,
        _ => Flow::Continue,
    }
}

/// What the outbound activity does with what its subscription produced.
pub fn outbound_step(event: OutboundEvent) -> (action: OutboundAction)
    ensures
        action == outbound_decision(event),
{
    match event {
        OutboundEvent::Received { serialized: Some(message) } => OutboundAction::Forward(message),
        OutboundEvent::Received { serialized: None } => OutboundAction::Skip,
        OutboundEvent::Lagged => OutboundAction::Terminate,
        OutboundEvent::ChannelClosed => OutboundAction::Terminate,
    }
}

/// What the outbound activity does after it tried to send a message: it
/// ends when the transport refused it.
pub fn after_send(delivered: bool) -> (flow: Flow)
    ensures
        flow == (if delivered {
            Flow::Continue
        } else {
            Flow::Terminate
        }),
{
    if delivered {
        Flow::Continue
    } else {
        Flow::Terminate
    }
}

/// One viewer connection.
#[derive(Debug, Clone, Copy, PartialEq, Eq, Structural)]
pub struct Connection {
    pub state: ConnectionState,
    /// Whether the inbound activity runs.
    pub inbound_active: bool,
    /// Whether the outbound activity runs.
    pub outbound_active: bool,
    /// Whether the connection holds a subscription.
    pub subscribed: bool,
}

impl Connection {
    /// The two activities run and the subscription is held exactly while the
    /// connection is streaming.
    pub open spec fn well_formed(self) -> bool {
        let streaming = self.state == ConnectionState::Streaming;
        &&& self.inbound_active == streaming
        &&& self.outbound_active == streaming
        &&& self.subscribed == streaming
    }

    /// A connection in the given state.
    pub open spec fn in_state(state: ConnectionState) -> Connection {
        let streaming = state == ConnectionState::Streaming;
        Connection {
            state,
            inbound_active: streaming,
            outbound_active: streaming,
            subscribed: streaming,
        }
    }

    /// The connection after its subscription has been made.
    pub open spec fn started(self) -> Connection {
        if self.state == ConnectionState::Connected {
            Connection::in_state(ConnectionState::Streaming)
        } else {
            self
        }
    }

    /// The connection after one of its activities has decided on `flow`.
    pub open spec fn after(self, flow: Flow) -> Connection {
        if self.state == ConnectionState::Streaming && flow == Flow::Terminate {
            Connection::in_state(ConnectionState::Closed)
        } else {
            self
        }
    }

    /// The connection after the inbound activity got `event`.
    pub open spec fn after_inbound(self, event: InboundEvent) -> Connection {
        self.after(
            if ends_inbound(event) {
                Flow::Terminate
            } else {
                Flow::Continue
            },
        )
    }

    /// The connection after the outbound activity tried to send a message.
    pub open spec fn after_sent(self, delivered: bool) -> Connection {
        self.after(
            if delivered {
                Flow::Continue
            } else {
                Flow::Terminate
            },
        )
    }

    /// A connection that has just been accepted.
    pub fn new() -> (connection: Connection)
        ensures
            connection == Connection::in_state(ConnectionState::Connected),
            connection.well_formed(),
    {
        Connection {
            state: ConnectionState::Connected,
            inbound_active: false,
            outbound_active: false,
            subscribed: false,
        }
    }

    /// Takes the connection from `Connected` to `Streaming`: it holds its
    /// subscription and both activities run. In any other state nothing
    /// changes.
    pub fn start(self) -> (next: Connection)
        ensures
            next == self.started(),
            self.well_formed() ==> next.well_formed(),
    {
        match self.state {
            ConnectionState::Connected => Connection {
                state: ConnectionState::Streaming,
                inbound_active: true,
                outbound_active: true,
                subscribed: true,
            },
            _ => self,
        }
    }

    /// The connection after one of its activities has decided on `flow`:
    /// when an activity of a streaming connection ends, the other one is
    /// cancelled, the subscription is released and the connection is closed.
    pub fn apply(self, flow: Flow) -> (next: Connection)
        ensures
            next == self.after(flow),
            self.well_formed() ==> next.well_formed(),
    {
        match (self.state, flow) {
            (ConnectionState::Streaming, Flow::Terminate) => Connection {
                state: ConnectionState::Closed,
                inbound_active: false,
                outbound_active: false,
                subscribed: false,
            },
            _ => self,
        }
    }

    /// The connection after the inbound activity got `event`.
    pub fn on_inbound(self, event: InboundEvent) -> (next: Connection)
        ensures
            next == self.after_inbound(event),
            self.well_formed() ==> next.well_formed(),
    {
        self.apply(inbound_step(event))
    }

    /// The connection after the outbound activity got `event`, and what that
    /// activity does. A connection that is not streaming forwards nothing.
    pub fn on_outbound(self, event: OutboundEvent) -> (result: (Connection, OutboundAction))
        ensures
            self.state == ConnectionState::Streaming ==> result.1 == outbound_decision(event),
            self.state != ConnectionState::Streaming ==> result.1 == OutboundAction::Terminate,
            result.0 == self.after(
                if result.1 == OutboundAction::Terminate {
                    Flow::Terminate
                } else {
                    Flow::Continue
                },
            ),
            self.well_formed() ==> result.0.well_formed(),
    {
        match self.state {
            ConnectionState::Streaming => {
                let action = outbound_step(event);
                let flow = match &action {
                    OutboundAction::Terminate => Flow::Terminate,
                    _ => Flow::Continue,
                };
                (self.apply(flow), action)
            },
            _ => (self, OutboundAction::Terminate),
        }
    }

    /// The connection after the outbound activity tried to send a message.
    pub fn on_sent(self, delivered: bool) -> (next: Connection)
        ensures
            next == self.after_sent(delivered),
            self.well_formed() ==> next.well_formed(),
    {
        self.apply(after_send(delivered))
    }
}

/// Whether an event of the subscription ends the outbound activity.
pub open spec fn ends_outbound(event: OutboundEvent) -> bool {
    outbound_decision(event) == OutboundAction::Terminate
}

/// When the transport of a streaming connection closes, because the viewer
/// closed it, because it failed or because it ran out, both activities end
/// and the subscription is released.
pub proof fn lemma_teardown(connection: Connection, event: InboundEvent)
    requires
        connection.well_formed(),
        connection.state == ConnectionState::Streaming,
        ends_inbound(event),
    ensures
        connection.after_inbound(event).state == ConnectionState::Closed,
        !connection.after_inbound(event).inbound_active,
        !connection.after_inbound(event).outbound_active,
        !connection.after_inbound(event).subscribed,
        connection.after_inbound(event).well_formed(),
{
}

/// When a message cannot be sent to the viewer of a streaming connection,
/// or its subscription ends, both activities end and the subscription is
/// released.
pub proof fn lemma_teardown_outbound(connection: Connection, event: OutboundEvent)
    requires
        connection.well_formed(),
        connection.state == ConnectionState::Streaming,
    ensures
        connection.after_sent(false) == Connection::in_state(ConnectionState::Closed),
        ends_outbound(event) ==> connection.after(Flow::Terminate) == Connection::in_state(
            ConnectionState::Closed,
        ),
        !Connection::in_state(ConnectionState::Closed).inbound_active,
        !Connection::in_state(ConnectionState::Closed).outbound_active,
        !Connection::in_state(ConnectionState::Closed).subscribed,
{
}

/// A streaming connection goes on streaming as long as neither activity
/// ends.
pub proof fn lemma_streaming_goes_on(connection: Connection, event: InboundEvent)
    requires
        connection.well_formed(),
        connection.state == ConnectionState::Streaming,
        !ends_inbound(event),
    ensures
        connection.after_inbound(event) == connection,
        connection.after_sent(true) == connection,
{
}

/// A closed connection stays closed whatever arrives, and nothing runs in it.
pub proof fn lemma_closed_is_final(
    connection: Connection,
    event: InboundEvent,
    delivered: bool,
    flow: Flow,
)
    requires
        connection.well_formed(),
        connection.state == ConnectionState::Closed,
    ensures
        connection.after_inbound(event) == connection,
        connection.after_sent(delivered) == connection,
        connection.after(flow) == connection,
        connection.started() == connection,
        !connection.inbound_active && !connection.outbound_active && !connection.subscribed,
{
}

} // verus!
