use catserver::cat::{
    is_upper_sideband, process_message, select_mode, CatAction, CatEvent, CatSession,
    ClientMessage, HighlightSpot, Outbound, RadioCommand, Rejection, SetModeAndFreq, SetRig,
};
use catserver::freq::Freq;
use catserver::lifecycle::UserEvent;
use catserver::reporting::{build_status_packet, Mode as SpotMode};
use catserver::rig::{Mode, Slot, Status};

fn snapshot(freq: u32) -> Status {
    Status { freq, status: "connected".into(), mode: "SSB".into(), current_rig: 1 }
}

fn set_mode(mode: &str, hz: u32) -> ClientMessage {
    ClientMessage::SetModeAndFreq(SetModeAndFreq { mode: mode.into(), freq: Freq::from_u32_hz(hz) })
}

fn spot(mode: &str) -> ClientMessage {
    ClientMessage::HighlightSpot(HighlightSpot {
        dx_callsign: "K1ABC".into(),
        de_callsign: "W9XYZ".into(),
        freq: 14_074_000,
        mode: mode.into(),
        dx_grid: "EM12".into(),
        de_grid: "FN20".into(),
        udp_port: 2237,
    })
}

fn open_session() -> CatSession {
    CatSession::start("v1").0
}

fn pushed(actions: &[CatAction]) -> Vec<u32> {
    let mut out = Vec::new();
    for action in actions {
        if let CatAction::Send(Outbound::Status(status)) = action {
            out.push(status.freq);
        }
    }
    out
}

#[test]
fn lower_bands_are_lower_sideband() {
    for hz in [1_800_000, 1_900_000, 2_000_000, 3_500_000, 4_000_000, 7_000_000, 7_300_000] {
        assert!(!is_upper_sideband(Freq::from_u32_hz(hz)));
    }
    for hz in [0, 1_799_999, 2_000_001, 3_499_999, 4_000_001, 6_999_999, 7_300_001, 14_074_000] {
        assert!(is_upper_sideband(Freq::from_u32_hz(hz)));
    }
}

#[test]
fn sideband_table() {
    assert_eq!(select_mode("SSB", true), Some(Mode::USB));
    assert_eq!(select_mode("SSB", false), Some(Mode::LSB));
    for upper in [true, false] {
        assert_eq!(select_mode("CW", upper), Some(Mode::CW));
        assert_eq!(select_mode("DIGI", upper), Some(Mode::Data));
        assert_eq!(select_mode("FT8", upper), Some(Mode::Data));
        assert_eq!(select_mode("FT4", upper), Some(Mode::Data));
        assert_eq!(select_mode("AM", upper), None);
        assert_eq!(select_mode("ssb", upper), None);
        assert_eq!(select_mode("", upper), None);
    }
}

#[test]
fn rig_message_selects_rig() {
    let plan = process_message(&ClientMessage::SetRig(SetRig { rig: 2 })).unwrap();
    assert_eq!(plan.commands, vec![RadioCommand::SetRig(2)]);
    assert!(plan.datagram.is_none());
}

#[test]
fn rig_message_with_unknown_rig_is_turned_down() {
    for rig in [0, 3, 200] {
        let result = process_message(&ClientMessage::SetRig(SetRig { rig }));
        assert_eq!(result.unwrap_err(), Rejection::InvalidRig);
    }
}

#[test]
fn mode_message_sets_mode_then_frequency() {
    let plan = process_message(&set_mode("SSB", 7_100_000)).unwrap();
    let freq = Freq::from_u32_hz(7_100_000);
    assert_eq!(
        plan.commands,
        vec![RadioCommand::SetMode(Mode::LSB), RadioCommand::SetFrequency(Slot::A, freq)]
    );
    assert!(plan.datagram.is_none());

    let plan = process_message(&set_mode("SSB", 14_200_000)).unwrap();
    assert_eq!(plan.commands[0], RadioCommand::SetMode(Mode::USB));
    let plan = process_message(&set_mode("FT8", 7_074_000)).unwrap();
    assert_eq!(plan.commands[0], RadioCommand::SetMode(Mode::Data));
    let plan = process_message(&set_mode("CW", 3_510_000)).unwrap();
    assert_eq!(plan.commands[0], RadioCommand::SetMode(Mode::CW));
}

#[test]
fn mode_message_with_unknown_mode_is_turned_down() {
    let result = process_message(&set_mode("AM", 7_100_000));
    assert_eq!(result.unwrap_err(), Rejection::UnknownMode);
}

#[test]
fn spot_becomes_datagram() {
    let plan = process_message(&spot("FT8")).unwrap();
    assert!(plan.commands.is_empty());
    let datagram = plan.datagram.unwrap();
    assert_eq!(datagram.port, 2237);
    assert_eq!(
        datagram.packet,
        build_status_packet("K1ABC", "W9XYZ", 14_074_000, SpotMode::FT8, "0", "EM12", "FN20")
    );
    let plan = process_message(&spot("DIGI")).unwrap();
    assert_eq!(
        plan.datagram.unwrap().packet,
        build_status_packet("K1ABC", "W9XYZ", 14_074_000, SpotMode::Rtty, "0", "EM12", "FN20")
    );
}

#[test]
fn spot_with_unknown_mode_is_turned_down() {
    assert_eq!(process_message(&spot("PSK31")).unwrap_err(), Rejection::UnknownMode);
}

#[test]
fn session_greets_with_version() {
    let (session, actions) = CatSession::start("catserver-v1.2.3");
    assert!(session.is_open());
    assert_eq!(actions.len(), 1);
    match &actions[0] {
        CatAction::Send(Outbound::Init { status, version }) => {
            assert_eq!(status, "connected");
            assert_eq!(version, "catserver-v1.2.3");
        }
        other => panic!("{:?}", other),
    }
}

#[test]
fn same_snapshot_is_pushed_once() {
    let mut session = open_session();
    let first = session.on_event(CatEvent::Tick);
    assert!(matches!(first[..], [CatAction::Poll]));
    let a = session.on_event(CatEvent::Polled(snapshot(7_000_000)));
    let b = session.on_event(CatEvent::Polled(snapshot(7_000_000)));
    assert_eq!(pushed(&a), vec![7_000_000]);
    assert_eq!(a.len(), 1);
    assert!(b.is_empty());
}

#[test]
fn different_snapshots_are_both_pushed() {
    let mut session = open_session();
    let a = session.on_event(CatEvent::Polled(snapshot(7_000_000)));
    let b = session.on_event(CatEvent::Polled(snapshot(7_000_001)));
    let c = session.on_event(CatEvent::Polled(snapshot(7_000_000)));
    assert_eq!(pushed(&a), vec![7_000_000]);
    assert_eq!(pushed(&b), vec![7_000_001]);
    assert_eq!(pushed(&c), vec![7_000_000]);
}

#[test]
fn message_is_followed_by_push_even_if_unchanged() {
    let mut session = open_session();
    session.on_event(CatEvent::Polled(snapshot(5)));
    let actions = session.on_event(CatEvent::Text(Some(ClientMessage::SetRig(SetRig { rig: 1 }))));
    assert_eq!(actions.len(), 2);
    assert!(matches!(actions[0], CatAction::Radio(RadioCommand::SetRig(1))));
    assert!(matches!(actions[1], CatAction::Poll));
    let after = session.on_event(CatEvent::Polled(snapshot(5)));
    assert_eq!(pushed(&after), vec![5]);
    let tick = session.on_event(CatEvent::Polled(snapshot(5)));
    assert!(tick.is_empty());
}

#[test]
fn mode_message_reaches_radio_in_order() {
    let mut session = open_session();
    let actions = session.on_event(CatEvent::Text(Some(set_mode("SSB", 3_700_000))));
    assert_eq!(actions.len(), 3);
    assert!(matches!(actions[0], CatAction::Radio(RadioCommand::SetMode(Mode::LSB))));
    match &actions[1] {
        CatAction::Radio(RadioCommand::SetFrequency(Slot::A, freq)) => {
            assert_eq!(freq.as_u32_hz(), 3_700_000)
        }
        other => panic!("{:?}", other),
    }
    assert!(matches!(actions[2], CatAction::Poll));
}

#[test]
fn spot_sends_datagram_then_polls() {
    let mut session = open_session();
    let actions = session.on_event(CatEvent::Text(Some(spot("CW"))));
    assert_eq!(actions.len(), 2);
    match &actions[0] {
        CatAction::SendDatagram(datagram) => assert_eq!(datagram.port, 2237),
        other => panic!("{:?}", other),
    }
    assert!(matches!(actions[1], CatAction::Poll));
}

#[test]
fn malformed_and_rejected_messages_are_passed_over() {
    let mut session = open_session();
    session.on_event(CatEvent::Polled(snapshot(5)));
    assert!(session.on_event(CatEvent::Text(None)).is_empty());
    assert!(session.on_event(CatEvent::Text(Some(set_mode("AM", 1)))).is_empty());
    let bad_rig = ClientMessage::SetRig(SetRig { rig: 9 });
    assert!(session.on_event(CatEvent::Text(Some(bad_rig))).is_empty());
    assert!(session.on_event(CatEvent::Text(Some(spot("??")))).is_empty());
    assert!(session.on_event(CatEvent::Ignored).is_empty());
    assert!(session.is_open());
    // Nothing asked for a push.
    assert!(session.on_event(CatEvent::Polled(snapshot(5))).is_empty());
}

#[test]
fn quit_sends_close_notice_and_ends() {
    let mut session = open_session();
    let actions = session.on_event(CatEvent::Lifecycle(UserEvent::Quit));
    assert!(matches!(actions[..], [CatAction::Send(Outbound::Close)]));
    assert!(!session.is_open());
    // The notice is best effort.
    assert!(session.on_event(CatEvent::SendFailed).is_empty());
    assert!(session.on_event(CatEvent::Tick).is_empty());
    assert!(session.on_event(CatEvent::Lifecycle(UserEvent::Quit)).is_empty());
}

#[test]
fn open_browser_sends_focus_notice_and_goes_on() {
    let mut session = open_session();
    let actions = session.on_event(CatEvent::Lifecycle(UserEvent::OpenBrowser));
    assert!(matches!(actions[..], [CatAction::Send(Outbound::Focus)]));
    assert!(session.is_open());
    let again = session.on_event(CatEvent::Lifecycle(UserEvent::OpenBrowser));
    assert!(matches!(again[..], [CatAction::Send(Outbound::Focus)]));
}

#[test]
fn session_ends_on_close_and_failures() {
    for event in [
        CatEvent::ClientClosed,
        CatEvent::ClientFailed,
        CatEvent::LifecycleFailed,
        CatEvent::SendFailed,
    ] {
        let mut session = open_session();
        assert!(session.on_event(event).is_empty());
        assert!(!session.is_open());
        assert!(session.on_event(CatEvent::Text(Some(set_mode("CW", 1)))).is_empty());
        assert!(session.on_event(CatEvent::Polled(snapshot(1))).is_empty());
    }
}
