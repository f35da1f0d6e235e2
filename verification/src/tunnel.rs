//! The WebSocket tunnel: a client socket, a socket to the same path at the
//! remote origin, and frames relayed between the two until either side is
//! done.
//!
//! A tunnel is a state machine. Whoever owns the two sockets hands it events,
//! one at a time, and carries out the actions it answers with, in order.

use crate::bridge::{
    axum_to_tungstenite_message, to_axum, to_tungstenite, tungstenite_to_axum_message,
    AxumCloseFrame, AxumMessage, AxumMessageView, CloseFrameView, TungsteniteCloseCode,
    TungsteniteCloseFrame, TungsteniteMessage, TungsteniteMessageView, NORMAL,
};
use crate::server::ServerConfig;
use vstd::prelude::*;

verus! {

/// Something that happened on one of a tunnel's two sockets.
pub enum TunnelEvent {
    /// The socket to the origin is open.
    Connected,
    /// The origin could not be reached.
    ConnectFailed,
    /// The client sent a message.
    FromClient(AxumMessage),
    /// The origin sent a message.
    FromUpstream(TungsteniteMessage),
    /// The client's side ended or failed.
    ClientEnded,
    /// The origin's side ended or failed.
    UpstreamEnded,
    /// A message for the client could not be sent.
    ClientSendFailed,
    /// A message for the origin could not be sent, because the origin had
    /// closed or for any other reason.
    UpstreamSendFailed,
}

/// Something the owner of the sockets does for the tunnel.
#[derive(Debug)]
pub enum TunnelAction {
    /// Send a message to the origin.
    ToUpstream(TungsteniteMessage),
    /// Send a message to the client.
    ToClient(AxumMessage),
    /// Give the tunnel up at once, as broken: a message arrived that cannot
    /// cross the bridge.
    Abort,
}

pub enum TunnelActionView {
    ToUpstream(TungsteniteMessageView),
    ToClient(AxumMessageView),
    Abort,
}

impl DeepView for TunnelAction {
    type V = TunnelActionView;

    open spec fn deep_view(&self) -> TunnelActionView {
        match self {
            TunnelAction::ToUpstream(message) => TunnelActionView::ToUpstream(message.deep_view()),
            TunnelAction::ToClient(message) => TunnelActionView::ToClient(message.deep_view()),
            TunnelAction::Abort => TunnelActionView::Abort,
        }
    }
}

/// Where a tunnel stands.
#[derive(Debug, Clone, Copy, PartialEq, Eq, Structural)]
pub enum TunnelPhase {
    /// The socket to the origin is being opened.
    Connecting,
    /// Frames are relayed both ways.
    Relaying,
    /// The tunnel is done.
    Closed,
}

/// The reason both sides are given when a tunnel ends.
pub open spec fn goodbye_reason() -> Seq<char> {
    "Goodbye"@
}

/// The two close frames that end a tunnel: one for the origin, then one for
/// the client, both a normal closure.
pub open spec fn goodbye() -> Seq<TunnelActionView> {
    seq![
        TunnelActionView::ToUpstream(
            TungsteniteMessageView::Close(
                Some(CloseFrameView { code: TungsteniteCloseCode::Normal, reason: goodbye_reason() }),
            ),
        ),
        TunnelActionView::ToClient(
            AxumMessageView::Close(Some(CloseFrameView { code: NORMAL, reason: goodbye_reason() })),
        ),
    ]
}

/// The tunnel after an event, and what the event calls for.
///
/// - While the origin is being reached, only the outcome of that counts:
///   success starts the relay, failure ends the tunnel.
/// - While relaying, a message from one side goes to the other, carried over
///   the bridge. A message that cannot cross the bridge breaks the tunnel.
/// - Either side ending, and any send that fails, ends the tunnel in the
///   ordinary way: both sides are sent a close frame. Whether those arrive
///   does not matter any more.
/// - A closed tunnel does nothing, whatever arrives.
pub open spec fn react(phase: TunnelPhase, event: TunnelEvent) -> (
    TunnelPhase,
    Seq<TunnelActionView>,
) {
    match phase {
        TunnelPhase::Connecting => match event {
            TunnelEvent::Connected => (TunnelPhase::Relaying, Seq::empty()),
            TunnelEvent::ConnectFailed => (TunnelPhase::Closed, Seq::empty()),
            _ => (phase, Seq::empty()),
        },
        TunnelPhase::Relaying => match event {
            TunnelEvent::Connected => (phase, Seq::empty()),
            TunnelEvent::ConnectFailed => (phase, Seq::empty()),
            TunnelEvent::FromClient(message) => match to_tungstenite(message.deep_view()) {
                Some(carried) => (phase, seq![TunnelActionView::ToUpstream(carried)]),
                None => (TunnelPhase::Closed, seq![TunnelActionView::Abort]),
            },
            TunnelEvent::FromUpstream(message) => match to_axum(message.deep_view()) {
                Some(carried) => (phase, seq![TunnelActionView::ToClient(carried)]),
                None => (TunnelPhase::Closed, seq![TunnelActionView::Abort]),
            },
            TunnelEvent::ClientEnded => (TunnelPhase::Closed, goodbye()),
            TunnelEvent::UpstreamEnded => (TunnelPhase::Closed, goodbye()),
            TunnelEvent::ClientSendFailed => (TunnelPhase::Closed, goodbye()),
            TunnelEvent::UpstreamSendFailed => (TunnelPhase::Closed, goodbye()),
        },
        TunnelPhase::Closed => (phase, Seq::empty()),
    }
}

/// One tunnel.
#[derive(Debug)]
pub struct Tunnel {
    phase: TunnelPhase,
}

impl Tunnel {
    /// Where the tunnel stands.
    pub closed spec fn phase(&self) -> TunnelPhase {
        self.phase
    }

    /// Starts a tunnel for `path`, and says where at the origin to connect.
    pub fn open(server_config: &ServerConfig, path: &str) -> (r: (Self, String))
        ensures
            r.0.phase() == TunnelPhase::Connecting,
            r.1@ == server_config.uri("ws"@, path@),
    {
        (Tunnel { phase: TunnelPhase::Connecting }, server_config.tunnel_uri(path))
    }

    /// Whether the tunnel is done.
    pub fn is_closed(&self) -> (r: bool)
        ensures
            r == (self.phase() == TunnelPhase::Closed),
    {
        match self.phase {
            TunnelPhase::Closed => true,
            _ => false,
        }
    }

    fn say_goodbye(&mut self) -> (actions: Vec<TunnelAction>)
        ensures
            final(self).phase() == TunnelPhase::Closed,
            actions.deep_view() == goodbye(),
    {
        self.phase = TunnelPhase::Closed;
        let mut actions: Vec<TunnelAction> = Vec::new();
        actions.push(
            TunnelAction::ToUpstream(
                TungsteniteMessage::Close(
                    Some(
                        TungsteniteCloseFrame {
                            code: TungsteniteCloseCode::Normal,
                            reason: "Goodbye".to_owned(),
                        },
                    ),
                ),
            ),
        );
        actions.push(
            TunnelAction::ToClient(
                AxumMessage::Close(
                    Some(AxumCloseFrame { code: NORMAL, reason: "Goodbye".to_owned() }),
                ),
            ),
        );
        assert(actions.deep_view() =~= goodbye());
        actions
    }

    /// Takes an event and answers with what to do about it, in order.
    pub fn on_event(&mut self, event: TunnelEvent) -> (actions: Vec<TunnelAction>)
        ensures
            (final(self).phase(), actions.deep_view()) == react(old(self).phase(), event),
    {
        let mut actions: Vec<TunnelAction> = Vec::new();
        assert(actions.deep_view() =~= Seq::<TunnelActionView>::empty());
        match self.phase {
            TunnelPhase::Connecting => {
                match event {
                    TunnelEvent::Connected => {
                        self.phase = TunnelPhase::Relaying;
                    },
                    TunnelEvent::ConnectFailed => {
                        self.phase = TunnelPhase::Closed;
                    },
                    _ => {},
                }
            },
            TunnelPhase::Relaying => {
                match event {
                    TunnelEvent::Connected => {},
                    TunnelEvent::ConnectFailed => {},
                    TunnelEvent::FromClient(message) => {
                        if message.is_bridgeable() {
                            let carried = axum_to_tungstenite_message(message);
                            actions.push(TunnelAction::ToUpstream(carried));
                            assert(actions.deep_view() =~= seq![
                                TunnelActionView::ToUpstream(carried.deep_view()),
                            ]);
                        } else {
                            self.phase = TunnelPhase::Closed;
                            actions.push(TunnelAction::Abort);
                            assert(actions.deep_view() =~= seq![TunnelActionView::Abort]);
                        }
                    },
                    TunnelEvent::FromUpstream(message) => {
                        if message.is_bridgeable() {
                            let carried = tungstenite_to_axum_message(message);
                            actions.push(TunnelAction::ToClient(carried));
                            assert(actions.deep_view() =~= seq![
                                TunnelActionView::ToClient(carried.deep_view()),
                            ]);
                        } else {
                            self.phase = TunnelPhase::Closed;
                            actions.push(TunnelAction::Abort);
                            assert(actions.deep_view() =~= seq![TunnelActionView::Abort]);
                        }
                    },
                    TunnelEvent::ClientEnded => {
                        actions = self.say_goodbye();
                    },
                    TunnelEvent::UpstreamEnded => {
                        actions = self.say_goodbye();
                    },
                    TunnelEvent::ClientSendFailed => {
                        actions = self.say_goodbye();
                    },
                    TunnelEvent::UpstreamSendFailed => {
                        actions = self.say_goodbye();
                    },
                }
            },
            TunnelPhase::Closed => {},
        }
        actions
    }
}

/// Whatever ends the relay in the ordinary way ends it with the same two
/// close frames, and a send that fails afterwards changes nothing.
pub proof fn lemma_tunnel_ends_with_goodbye(event: TunnelEvent)
    requires
        event is ClientEnded || event is UpstreamEnded || event is ClientSendFailed
            || event is UpstreamSendFailed,
    ensures
        react(TunnelPhase::Relaying, event) == (TunnelPhase::Closed, goodbye()),
        react(TunnelPhase::Closed, event) == (TunnelPhase::Closed, Seq::<TunnelActionView>::empty()),
{
}

/// While relaying, a message that can cross the bridge is passed on, as the
/// bridge carries it, and the relay goes on.
pub proof fn lemma_tunnel_relays(client: AxumMessage, upstream: TungsteniteMessage)
    ensures
        to_tungstenite(client.deep_view()) matches Some(carried) ==> react(
            TunnelPhase::Relaying,
            TunnelEvent::FromClient(client),
        ) == (TunnelPhase::Relaying, seq![TunnelActionView::ToUpstream(carried)]),
        to_axum(upstream.deep_view()) matches Some(carried) ==> react(
            TunnelPhase::Relaying,
            TunnelEvent::FromUpstream(upstream),
        ) == (TunnelPhase::Relaying, seq![TunnelActionView::ToClient(carried)]),
{
}

} // verus!
