//! The CAT control socket: what a client may ask for, what becomes of each
//! request, and the session that multiplexes client frames, lifecycle events
//! and the polling timer.
//!
//! A session is a state machine. Whoever owns the socket hands it events, one
//! at a time, and carries out the actions it answers with, in order: it
//! applies commands to the radio, polls the radio and hands the snapshot back
//! as [`CatEvent::Polled`], sends frames and datagrams, and reports a send
//! that failed as [`CatEvent::SendFailed`].

use crate::freq::Freq;
use crate::lifecycle::UserEvent;
use crate::reporting;
use crate::reporting::{build_status_packet, status_packet};
use crate::rig::{connected_label, is_valid_rig, valid_rig, Mode, Slot, Status, StatusView};
use crate::text::str_eq;
use vstd::prelude::*;

verus! {

/// How often the timer of a session fires, in milliseconds.
pub const POLL_INTERVAL_MS: u64 = 500;

// ---------------------------------------------------------------------------
// Sideband
// ---------------------------------------------------------------------------

/// The amateur band, by its name in metres, that holds a frequency and is
/// worked in lower sideband. Every other frequency is worked in upper
/// sideband.
pub open spec fn lower_sideband_band(hz: nat) -> Option<nat> {
    if 1_800_000 <= hz <= 2_000_000 {
        Some(160nat)
    } else if 3_500_000 <= hz <= 4_000_000 {
        Some(80nat)
    } else if 7_000_000 <= hz <= 7_300_000 {
        Some(40nat)
    } else {
        None
    }
}

/// Whether voice on `hz` goes in upper sideband.
pub open spec fn upper_sideband(hz: nat) -> bool {
    lower_sideband_band(hz) is None
}

/// Whether voice on `freq` goes in upper sideband.
pub fn is_upper_sideband(freq: Freq) -> (r: bool)
    ensures
        r == upper_sideband(freq.hz()),
{
    let hz = freq.as_u32_hz();
    !(1_800_000 <= hz && hz <= 2_000_000) && !(3_500_000 <= hz && hz <= 4_000_000) && !(7_000_000
        <= hz && hz <= 7_300_000)
}

/// The mode to set for what a client calls `mode`, given the sideband its
/// frequency asks for. A name outside the table gives `None`.
pub open spec fn mode_for(mode: Seq<char>, upper: bool) -> Option<Mode> {
    if mode == "SSB"@ {
        Some(
            if upper {
                Mode::USB
            } else {
                Mode::LSB
            },
        )
    } else if mode == "DIGI"@ || mode == "FT8"@ || mode == "FT4"@ {
        Some(Mode::Data)
    } else if mode == "CW"@ {
        Some(Mode::CW)
    } else {
        None
    }
}

/// The mode to set for what a client calls `mode`, given the sideband its
/// frequency asks for.
pub fn select_mode(mode: &str, upper: bool) -> (r: Option<Mode>)
    ensures
        r == mode_for(mode@, upper),
{
    if str_eq(mode, "SSB") {
        if upper {
            Some(Mode::USB)
        } else {
            Some(Mode::LSB)
        }
    } else if str_eq(mode, "DIGI") || str_eq(mode, "FT8") || str_eq(mode, "FT4") {
        Some(Mode::Data)
    } else if str_eq(mode, "CW") {
        Some(Mode::CW)
    } else {
        None
    }
}

/// The sideband table. Voice goes in lower sideband on 160, 80 and 40 metres
/// and in upper sideband everywhere else; CW stays CW and the digital modes
/// stay data, whatever the band.
pub proof fn lemma_sideband_table(hz: nat)
    ensures
        (lower_sideband_band(hz) == Some(160nat) || lower_sideband_band(hz) == Some(80nat)
            || lower_sideband_band(hz) == Some(40nat)) ==> mode_for("SSB"@, upper_sideband(hz))
            == Some(Mode::LSB),
        lower_sideband_band(hz) is None ==> mode_for("SSB"@, upper_sideband(hz)) == Some(
            Mode::USB,
        ),
        mode_for("CW"@, upper_sideband(hz)) == Some(Mode::CW),
        mode_for("DIGI"@, upper_sideband(hz)) == Some(Mode::Data),
        mode_for("FT8"@, upper_sideband(hz)) == Some(Mode::Data),
        mode_for("FT4"@, upper_sideband(hz)) == Some(Mode::Data),
{
    reveal_strlit("SSB");
    reveal_strlit("DIGI");
    reveal_strlit("FT8");
    reveal_strlit("FT4");
    reveal_strlit("CW");
    assert("CW"@.len() == 2 && "SSB"@.len() == 3 && "DIGI"@.len() == 4);
    assert("FT8"@[0] == 'F' && "FT4"@[0] == 'F' && "SSB"@[0] == 'S');
}

// ---------------------------------------------------------------------------
// Client messages
// ---------------------------------------------------------------------------

/// Selects one of the two banks.
pub struct SetRig {
    pub rig: u8,
}

/// Sets the mode and the frequency of slot A.
pub struct SetModeAndFreq {
    pub mode: String,
    pub freq: Freq,
}

/// Reports a spot to the logging software on this machine.
pub struct HighlightSpot {
    pub dx_callsign: String,
    pub de_callsign: String,
    /// In hertz.
    pub freq: u64,
    pub mode: String,
    pub dx_grid: String,
    pub de_grid: String,
    pub udp_port: u16,
}

/// What a client can send as a text frame.
pub enum ClientMessage {
    SetRig(SetRig),
    SetModeAndFreq(SetModeAndFreq),
    HighlightSpot(HighlightSpot),
}

/// One call on the radio.
#[derive(Debug, Clone, Copy, PartialEq, Eq, Structural)]
pub enum RadioCommand {
    SetRig(u8),
    SetMode(Mode),
    SetFrequency(Slot, Freq),
}

impl DeepView for RadioCommand {
    type V = RadioCommand;

    open spec fn deep_view(&self) -> RadioCommand {
        *self
    }
}

/// A datagram and the local port it goes to.
#[derive(Debug)]
pub struct Datagram {
    pub packet: Vec<u8>,
    pub port: u16,
}

pub struct DatagramView {
    pub packet: Seq<u8>,
    pub port: u16,
}

impl DeepView for Datagram {
    type V = DatagramView;

    open spec fn deep_view(&self) -> DatagramView {
        DatagramView { packet: self.packet@, port: self.port }
    }
}

/// Why a message was turned down before it reached the radio.
#[derive(Debug, Clone, Copy, PartialEq, Eq, Structural)]
pub enum Rejection {
    /// The bank is neither 1 nor 2.
    InvalidRig,
    /// The mode is none the gateway knows.
    UnknownMode,
}

/// What a message asks for: calls on the radio, in order, and at most one
/// datagram.
#[derive(Debug)]
pub struct Plan {
    pub commands: Vec<RadioCommand>,
    pub datagram: Option<Datagram>,
}

pub struct PlanView {
    pub commands: Seq<RadioCommand>,
    pub datagram: Option<DatagramView>,
}

impl DeepView for Plan {
    type V = PlanView;

    open spec fn deep_view(&self) -> PlanView {
        PlanView { commands: self.commands@, datagram: self.datagram.deep_view() }
    }
}

/// The report a highlighted spot carries.
pub open spec fn spot_report() -> Seq<char> {
    "0"@
}

/// What becomes of a message.
///
/// - A bank is selected if it is 1 or 2.
/// - Mode and frequency are set, in that order and on slot A, if the mode is
///   known; the sideband of voice follows the frequency.
/// - A spot becomes a status datagram for its port if its mode is known.
pub open spec fn plan_of(message: ClientMessage) -> Result<PlanView, Rejection> {
    match message {
        ClientMessage::SetRig(m) => if valid_rig(m.rig) {
            Ok(PlanView { commands: seq![RadioCommand::SetRig(m.rig)], datagram: None })
        } else {
            Err(Rejection::InvalidRig)
        },
        ClientMessage::SetModeAndFreq(m) => match mode_for(m.mode@, upper_sideband(m.freq.hz())) {
            Some(mode) => Ok(
                PlanView {
                    commands: seq![
                        RadioCommand::SetMode(mode),
                        RadioCommand::SetFrequency(Slot::A, m.freq),
                    ],
                    datagram: None,
                },
            ),
            None => Err(Rejection::UnknownMode),
        },
        ClientMessage::HighlightSpot(spot) => match reporting::Mode::of_spot(spot.mode@) {
            Some(mode) => Ok(
                PlanView {
                    commands: Seq::empty(),
                    datagram: Some(
                        DatagramView {
                            packet: status_packet(
                                spot.dx_callsign@,
                                spot.de_callsign@,
                                spot.freq,
                                mode,
                                spot_report(),
                                spot.dx_grid@,
                                spot.de_grid@,
                            ),
                            port: spot.udp_port,
                        },
                    ),
                },
            ),
            None => Err(Rejection::UnknownMode),
        },
    }
}

/// Works out what a message asks for, or why it is turned down. Nothing is
/// done to the radio and nothing is sent: the plan says what to do.
pub fn process_message(message: &ClientMessage) -> (r: Result<Plan, Rejection>)
    ensures
        r matches Ok(plan) ==> plan_of(*message) == Ok::<PlanView, Rejection>(plan.deep_view()),
        r matches Err(why) ==> plan_of(*message) == Err::<PlanView, Rejection>(why),
{
    match message {
        ClientMessage::SetRig(set_rig) => {
            if !is_valid_rig(set_rig.rig) {
                return Err(Rejection::InvalidRig);
            }
            let mut commands: Vec<RadioCommand> = Vec::new();
            commands.push(RadioCommand::SetRig(set_rig.rig));
            assert(commands@ =~= seq![RadioCommand::SetRig(set_rig.rig)]);
            Ok(Plan { commands, datagram: None })
        },
        ClientMessage::SetModeAndFreq(set_mode_and_freq) => {
            let is_upper = is_upper_sideband(set_mode_and_freq.freq);
            let mode = match select_mode(set_mode_and_freq.mode.as_str(), is_upper) {
                Some(mode) => mode,
                None => {
                    return Err(Rejection::UnknownMode);
                },
            };
            let mut commands: Vec<RadioCommand> = Vec::new();
            commands.push(RadioCommand::SetMode(mode));
            commands.push(RadioCommand::SetFrequency(Slot::A, set_mode_and_freq.freq));
            assert(commands@ =~= seq![
                RadioCommand::SetMode(mode),
                RadioCommand::SetFrequency(Slot::A, set_mode_and_freq.freq),
            ]);
            Ok(Plan { commands, datagram: None })
        },
        ClientMessage::HighlightSpot(spot) => {
            let mode = match reporting::Mode::from_spot(spot.mode.as_str()) {
                Some(mode) => mode,
                None => {
                    return Err(Rejection::UnknownMode);
                },
            };
            let packet = build_status_packet(
                spot.dx_callsign.as_str(),
                spot.de_callsign.as_str(),
                spot.freq,
                mode,
                "0",
                spot.dx_grid.as_str(),
                spot.de_grid.as_str(),
            );
            let commands: Vec<RadioCommand> = Vec::new();
            assert(commands@ =~= Seq::<RadioCommand>::empty());
            Ok(Plan { commands, datagram: Some(Datagram { packet, port: spot.udp_port }) })
        },
    }
}

// ---------------------------------------------------------------------------
// The session
// ---------------------------------------------------------------------------

/// A frame for the client.
#[derive(Debug)]
pub enum Outbound {
    /// The handshake: a status and the running build's version.
    Init { status: String, version: String },
    /// A snapshot of the radio.
    Status(Status),
    /// The notice that the gateway is closing: `{"close": true}`.
    Close,
    /// The notice that the user asked for the application: `{"focus": true}`.
    Focus,
}

pub enum OutboundView {
    Init { status: Seq<char>, version: Seq<char> },
    Status(StatusView),
    Close,
    Focus,
}

impl DeepView for Outbound {
    type V = OutboundView;

    open spec fn deep_view(&self) -> OutboundView {
        match self {
            Outbound::Init { status, version } => OutboundView::Init {
                status: status@,
                version: version@,
            },
            Outbound::Status(status) => OutboundView::Status(status@),
            Outbound::Close => OutboundView::Close,
            Outbound::Focus => OutboundView::Focus,
        }
    }
}

/// Something the owner of the socket does for the session.
#[derive(Debug)]
pub enum CatAction {
    /// Call the radio.
    Radio(RadioCommand),
    /// Poll the radio and hand the snapshot back as [`CatEvent::Polled`].
    Poll,
    /// Send a frame to the client.
    Send(Outbound),
    /// Send a datagram to a port of this machine.
    SendDatagram(Datagram),
}

pub enum CatActionView {
    Radio(RadioCommand),
    Poll,
    Send(OutboundView),
    SendDatagram(DatagramView),
}

impl DeepView for CatAction {
    type V = CatActionView;

    open spec fn deep_view(&self) -> CatActionView {
        match self {
            CatAction::Radio(command) => CatActionView::Radio(*command),
            CatAction::Poll => CatActionView::Poll,
            CatAction::Send(frame) => CatActionView::Send(frame.deep_view()),
            CatAction::SendDatagram(datagram) => CatActionView::SendDatagram(datagram.deep_view()),
        }
    }
}

/// Something that happened on a CAT socket.
pub enum CatEvent {
    /// A text frame from the client: the message it holds, or `None` where it
    /// holds none.
    Text(Option<ClientMessage>),
    /// A frame that is neither text nor a close.
    Ignored,
    /// The client closed the socket.
    ClientClosed,
    /// Receiving from the client failed.
    ClientFailed,
    /// An event came off the lifecycle bus.
    Lifecycle(UserEvent),
    /// The lifecycle bus can deliver nothing more.
    LifecycleFailed,
    /// The polling timer fired.
    Tick,
    /// The radio was polled, as [`CatAction::Poll`] asked.
    Polled(Status),
    /// A frame or a datagram could not be sent.
    SendFailed,
}

/// A session's state, as plain values.
pub struct CatSessionView {
    /// Whether the socket is still served.
    pub open: bool,
    /// Whether the next snapshot is pushed even if nothing changed.
    pub push_next: bool,
    /// The snapshot the client saw last.
    pub last_pushed: Option<StatusView>,
}

/// The state of one CAT socket.
#[derive(Debug)]
pub struct CatSession {
    open: bool,
    push_next: bool,
    last_pushed: Option<Status>,
}

impl View for CatSession {
    type V = CatSessionView;

    closed spec fn view(&self) -> CatSessionView {
        CatSessionView {
            open: self.open,
            push_next: self.push_next,
            last_pushed: match self.last_pushed {
                Some(status) => Some(status@),
                None => None,
            },
        }
    }
}

/// The actions a plan turns into: its calls on the radio, then its datagram,
/// then a poll, so that the client sees what its message did.
pub open spec fn plan_actions(plan: PlanView) -> Seq<CatActionView> {
    plan.commands.map_values(|c: RadioCommand| CatActionView::Radio(c)) + (match plan.datagram {
        Some(datagram) => seq![CatActionView::SendDatagram(datagram)],
        None => Seq::empty(),
    }) + seq![CatActionView::Poll]
}

/// A session for a socket that was just upgraded.
pub open spec fn fresh() -> CatSessionView {
    CatSessionView { open: true, push_next: false, last_pushed: None }
}

/// The frame that greets a client.
pub open spec fn handshake(version: Seq<char>) -> CatActionView {
    CatActionView::Send(OutboundView::Init { status: connected_label(), version })
}

/// The session after an event, and what the event calls for.
///
/// - A closed session does nothing, whatever arrives.
/// - A message that is accepted is carried out and followed by a poll whose
///   snapshot is pushed in any case. One that is turned down, or a text frame
///   that holds no message, is passed over: nothing is done and nothing is
///   sent.
/// - The client's close, a failed receive, a failed send and the loss of the
///   bus end the session.
/// - `Quit` sends the closing notice and ends the session; `OpenBrowser` sends
///   the focus notice.
/// - A tick polls the radio.
/// - A snapshot is pushed if a message asked for it or if it differs from
///   the one pushed last.
pub open spec fn react(state: CatSessionView, event: CatEvent) -> (CatSessionView, Seq<
    CatActionView,
>) {
    let closed = CatSessionView { open: false, ..state };
    if !state.open {
        (state, Seq::empty())
    } else {
        match event {
            CatEvent::Text(Some(message)) => match plan_of(message) {
                Ok(plan) => (CatSessionView { push_next: true, ..state }, plan_actions(plan)),
                Err(_) => (state, Seq::empty()),
            },
            CatEvent::Text(None) => (state, Seq::empty()),
            CatEvent::Ignored => (state, Seq::empty()),
            CatEvent::ClientClosed => (closed, Seq::empty()),
            CatEvent::ClientFailed => (closed, Seq::empty()),
            CatEvent::Lifecycle(UserEvent::Quit) => (
                closed,
                seq![CatActionView::Send(OutboundView::Close)],
            ),
            CatEvent::Lifecycle(UserEvent::OpenBrowser) => (
                state,
                seq![CatActionView::Send(OutboundView::Focus)],
            ),
            CatEvent::LifecycleFailed => (closed, Seq::empty()),
            CatEvent::Tick => (state, seq![CatActionView::Poll]),
            CatEvent::Polled(status) => if state.push_next || state.last_pushed != Some(status@) {
                (
                    CatSessionView { open: true, push_next: false, last_pushed: Some(status@) },
                    seq![CatActionView::Send(OutboundView::Status(status@))],
                )
            } else {
                (state, Seq::empty())
            },
            CatEvent::SendFailed => (closed, Seq::empty()),
        }
    }
}

fn actions_of_plan(plan: Plan) -> (actions: Vec<CatAction>)
    ensures
        actions.deep_view() == plan_actions(plan.deep_view()),
{
    let Plan { commands, datagram } = plan;
    let mut actions: Vec<CatAction> = Vec::new();
    let mut i: usize = 0;
    while i < commands.len()
        invariant
            i <= commands.len(),
            actions@.len() == i,
            forall|j: int| 0 <= j < i ==> actions@[j] == CatAction::Radio(commands@[j]),
        decreases commands.len() - i,
    {
        actions.push(CatAction::Radio(commands[i]));
        i += 1;
    }
    let ghost radio = actions@;
    match datagram {
        Some(datagram) => {
            actions.push(CatAction::SendDatagram(datagram));
        },
        None => {},
    }
    actions.push(CatAction::Poll);
    assert(actions.deep_view() =~= plan_actions(plan.deep_view()));
    actions
}

impl CatSession {
    /// Starts the session of a socket that was just upgraded. The first thing
    /// the client gets is the handshake.
    pub fn start(version: &str) -> (r: (Self, Vec<CatAction>))
        ensures
            r.0@ == fresh(),
            r.1.deep_view() == seq![handshake(version@)],
    {
        let mut actions: Vec<CatAction> = Vec::new();
        actions.push(
            CatAction::Send(
                Outbound::Init { status: "connected".to_owned(), version: version.to_owned() },
            ),
        );
        assert(actions.deep_view() =~= seq![handshake(version@)]);
        (CatSession { open: true, push_next: false, last_pushed: None }, actions)
    }

    /// Whether the socket is still served.
    pub fn is_open(&self) -> (r: bool)
        ensures
            r == self@.open,
    {
        self.open
    }

    /// Takes an event and answers with what to do about it, in order.
    pub fn on_event(&mut self, event: CatEvent) -> (actions: Vec<CatAction>)
        ensures
            (final(self)@, actions.deep_view()) == react(old(self)@, event),
    {
        let mut actions: Vec<CatAction> = Vec::new();
        assert(actions.deep_view() =~= Seq::<CatActionView>::empty());
        if !self.open {
            return actions;
        }
        match event {
            CatEvent::Text(Some(message)) => {
                match process_message(&message) {
                    Ok(plan) => {
                        self.push_next = true;
                        actions = actions_of_plan(plan);
                    },
                    Err(_) => {},
                }
            },
            CatEvent::Text(None) => {},
            CatEvent::Ignored => {},
            CatEvent::ClientClosed => {
                self.open = false;
            },
            CatEvent::ClientFailed => {
                self.open = false;
            },
            CatEvent::Lifecycle(UserEvent::Quit) => {
                self.open = false;
                actions.push(CatAction::Send(Outbound::Close));
                assert(actions.deep_view() =~= seq![CatActionView::Send(OutboundView::Close)]);
            },
            CatEvent::Lifecycle(UserEvent::OpenBrowser) => {
                actions.push(CatAction::Send(Outbound::Focus));
                assert(actions.deep_view() =~= seq![CatActionView::Send(OutboundView::Focus)]);
            },
            CatEvent::LifecycleFailed => {
                self.open = false;
            },
            CatEvent::Tick => {
                actions.push(CatAction::Poll);
                assert(actions.deep_view() =~= seq![CatActionView::Poll]);
            },
            CatEvent::Polled(status) => {
                let changed = match &self.last_pushed {
                    Some(previous) => !(*previous == status),
                    None => true,
                };
                if self.push_next || changed {
                    self.push_next = false;
                    self.last_pushed = Some(status.clone());
                    actions.push(CatAction::Send(Outbound::Status(status)));
                    assert(actions.deep_view() =~= seq![
                        CatActionView::Send(OutboundView::Status(status@)),
                    ]);
                }
            },
            CatEvent::SendFailed => {
                self.open = false;
            },
        }
        actions
    }
}

// ---------------------------------------------------------------------------
// What holds of every session
// ---------------------------------------------------------------------------

/// How many of the actions push a snapshot.
pub open spec fn pushes(actions: Seq<CatActionView>) -> nat
    decreases actions.len(),
{
    if actions.len() == 0 {
        0
    } else {
        pushes(actions.drop_last()) + (match actions.last() {
            CatActionView::Send(OutboundView::Status(_)) => 1nat,
            _ => 0nat,
        })
    }
}

proof fn lemma_pushes_of_one(action: CatActionView)
    ensures
        pushes(seq![action]) == (match action {
            CatActionView::Send(OutboundView::Status(_)) => 1nat,
            _ => 0nat,
        }),
        pushes(Seq::<CatActionView>::empty()) == 0,
{
    let none = Seq::<CatActionView>::empty();
    assert(pushes(none) == 0);
    let one = seq![action];
    assert(one.drop_last() =~= none);
    assert(one.last() == action);
    assert(pushes(one) == pushes(one.drop_last()) + (match one.last() {
        CatActionView::Send(OutboundView::Status(_)) => 1nat,
        _ => 0nat,
    }));
}

/// Two polls in a row that find the same snapshot push it once; two that find
/// different snapshots push both.
pub proof fn lemma_push_suppression(first: Status, second: Status)
    ensures
        ({
            let (after_first, pushed_first) = react(fresh(), CatEvent::Polled(first));
            let (after_second, pushed_second) = react(after_first, CatEvent::Polled(second));
            pushes(pushed_first) + pushes(pushed_second) == (if first@ == second@ {
                1nat
            } else {
                2nat
            })
        }),
{
    let push_first = CatActionView::Send(OutboundView::Status(first@));
    let push_second = CatActionView::Send(OutboundView::Status(second@));
    let (after_first, pushed_first) = react(fresh(), CatEvent::Polled(first));
    assert(pushed_first == seq![push_first]);
    assert(after_first == CatSessionView {
        open: true,
        push_next: false,
        last_pushed: Some(first@),
    });
    let (after_second, pushed_second) = react(after_first, CatEvent::Polled(second));
    lemma_pushes_of_one(push_first);
    lemma_pushes_of_one(push_second);
    if first@ == second@ {
        assert(pushed_second == Seq::<CatActionView>::empty());
    } else {
        assert(pushed_second == seq![push_second]);
    }
}

/// In any open session, a poll that finds what the client saw last pushes
/// nothing, and a poll that finds anything else pushes exactly that.
pub proof fn lemma_poll_pushes_changes(state: CatSessionView, status: Status)
    requires
        state.open,
        !state.push_next,
    ensures
        state.last_pushed == Some(status@) ==> react(state, CatEvent::Polled(status)) == (
            state,
            Seq::<CatActionView>::empty(),
        ),
        state.last_pushed != Some(status@) ==> react(state, CatEvent::Polled(status)).1
            == seq![CatActionView::Send(OutboundView::Status(status@))],
        react(state, CatEvent::Polled(status)).0.last_pushed == Some(status@),
{
}

/// A message that is accepted ends in a poll, and the snapshot of that poll
/// is pushed whether or not it differs from the last: the client sees what
/// its message did before any push that the timer causes.
pub proof fn lemma_message_then_push(state: CatSessionView, message: ClientMessage, status: Status)
    requires
        state.open,
        plan_of(message) is Ok,
    ensures
        ({
            let (waiting, actions) = react(state, CatEvent::Text(Some(message)));
            &&& actions.len() > 0
            &&& actions.last() == CatActionView::Poll
            &&& react(waiting, CatEvent::Polled(status)).1 == seq![
                CatActionView::Send(OutboundView::Status(status@)),
            ]
        }),
{
}

/// A message that is turned down, and a text frame that holds no message,
/// leave the session as it was and reach neither the radio nor the client.
pub proof fn lemma_rejected_is_passed_over(state: CatSessionView, message: Option<ClientMessage>)
    requires
        message matches Some(m) ==> plan_of(m) is Err,
    ensures
        react(state, CatEvent::Text(message)) == (state, Seq::<CatActionView>::empty()),
{
}

/// On `Quit` an open session sends the closing notice, and nothing else, and
/// is closed.
pub proof fn lemma_quit_sends_close(state: CatSessionView)
    requires
        state.open,
    ensures
        react(state, CatEvent::Lifecycle(UserEvent::Quit)).1 == seq![
            CatActionView::Send(OutboundView::Close),
        ],
        !react(state, CatEvent::Lifecycle(UserEvent::Quit)).0.open,
{
}

/// A closed session stays closed and asks for nothing more.
pub proof fn lemma_closed_is_final(state: CatSessionView, event: CatEvent)
    requires
        !state.open,
    ensures
        react(state, event) == (state, Seq::<CatActionView>::empty()),
{
}

} // verus!
