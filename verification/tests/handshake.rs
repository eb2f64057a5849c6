use manual_signaling::codec::encode;
use manual_signaling::descriptor::{SdpKind, SessionDescriptor, SignalingMessage};
use manual_signaling::error::SignalError;
use manual_signaling::handshake::{Action, Event, Failure, Handshake, Phase, Role};

fn descriptor(kind: SdpKind, sdp: &str) -> SessionDescriptor {
    SessionDescriptor::new(kind, sdp.to_string())
}

fn message(json: &str, wire: &str) -> SignalingMessage {
    SignalingMessage { json: json.to_string(), wire: wire.to_string() }
}

fn line(wire: &str) -> Action {
    Action::Announce { json: None, wire: wire.to_string() }
}

fn wire(kind: SdpKind, sdp: &str) -> String {
    descriptor(kind, sdp).to_wire().unwrap()
}

/// Runs the offering side up to the point where it waits for the outcome of
/// asking the transport for the local descriptor.
fn offer_up_to_reading_local() -> Handshake {
    let mut h = Handshake::new(Role::Offer);
    assert_eq!(h.step(Event::Started), Action::CreateConnection);
    assert_eq!(h.step(Event::ConnectionReady), Action::CreateDataChannel);
    assert_eq!(h.step(Event::ChannelReady), Action::CreateLocalDescription);
    assert_eq!(h.step(Event::LocalCreated), Action::ArmGathering);
    assert_eq!(h.step(Event::GatheringArmed), Action::SetLocalDescription);
    assert_eq!(h.step(Event::LocalApplied), Action::AwaitGathering);
    assert_eq!(h.step(Event::GatheringComplete), Action::ReadLocalDescription);
    h
}

/// Runs the answering side up to the point where it waits for the line.
fn answer_up_to_reading_line() -> Handshake {
    let mut h = Handshake::new(Role::Answer);
    assert_eq!(h.step(Event::Started), Action::CreateConnection);
    assert_eq!(h.step(Event::ConnectionReady), Action::ReadLine);
    h
}

#[test]
fn roles_know_their_kinds() {
    assert_eq!(Role::Offer.made_locally(), SdpKind::Offer);
    assert_eq!(Role::Offer.expected_from_peer(), SdpKind::Answer);
    assert_eq!(Role::Answer.made_locally(), SdpKind::Answer);
    assert_eq!(Role::Answer.expected_from_peer(), SdpKind::Offer);
}

#[test]
fn a_new_handshake_has_not_begun() {
    let h = Handshake::new(Role::Offer);
    assert_eq!(h.role(), Role::Offer);
    assert_eq!(h.phase(), Phase::Start);
    assert!(!h.is_over());
}

#[test]
fn the_offering_side_announces_its_encoded_offer_before_it_reads() {
    let mut h = offer_up_to_reading_local();
    let local = descriptor(SdpKind::Offer, "v=0...");
    let announced = h.feed_local(Some(local));
    assert_eq!(
        announced,
        line(&encode("{\"type\":\"offer\",\"sdp\":\"v=0...\"}"))
    );
    assert_eq!(
        announced,
        line("eyJ0eXBlIjoib2ZmZXIiLCJzZHAiOiJ2PTAuLi4ifQ==")
    );
    assert_eq!(h.phase(), Phase::Announcing);
    assert_eq!(h.step(Event::Announced), Action::ReadLine);
}

#[test]
fn the_offering_side_goes_on_to_the_end() {
    let mut h = offer_up_to_reading_local();
    h.feed_local(Some(descriptor(SdpKind::Offer, "v=0...")));
    assert_eq!(h.step(Event::Announced), Action::ReadLine);
    let line = format!("{}\n", wire(SdpKind::Answer, "v=0 answer"));
    assert_eq!(
        h.feed_line(&line),
        Action::SetRemoteDescription(descriptor(SdpKind::Answer, "v=0 answer"))
    );
    assert_eq!(h.step(Event::RemoteApplied), Action::AwaitShutdown);
    assert_eq!(h.step(Event::Interrupted), Action::Close);
    assert_eq!(h.step(Event::Closed), Action::Finish);
    assert_eq!(h.phase(), Phase::Finished);
    assert!(h.is_over());
}

#[test]
fn the_answering_side_hands_the_offer_on_before_it_asks_for_an_answer() {
    let mut h = answer_up_to_reading_line();
    let line = encode("{\"type\":\"offer\",\"sdp\":\"v=0...\"}");
    assert_eq!(
        h.feed_line(&line),
        Action::SetRemoteDescription(descriptor(SdpKind::Offer, "v=0..."))
    );
    assert_eq!(h.phase(), Phase::ApplyingRemote);
    assert_eq!(h.step(Event::RemoteApplied), Action::CreateLocalDescription);
}

#[test]
fn the_answering_side_goes_on_to_the_end() {
    let mut h = answer_up_to_reading_line();
    h.feed_line(&wire(SdpKind::Offer, "v=0..."));
    assert_eq!(h.step(Event::RemoteApplied), Action::CreateLocalDescription);
    assert_eq!(h.step(Event::LocalCreated), Action::ArmGathering);
    assert_eq!(h.step(Event::GatheringArmed), Action::SetLocalDescription);
    assert_eq!(h.step(Event::LocalApplied), Action::AwaitGathering);
    assert_eq!(h.step(Event::GatheringComplete), Action::ReadLocalDescription);
    assert_eq!(
        h.feed_local(Some(descriptor(SdpKind::Answer, "v=0 answer"))),
        Action::Announce {
            json: Some("{\"type\":\"answer\",\"sdp\":\"v=0 answer\"}".to_string()),
            wire: wire(SdpKind::Answer, "v=0 answer"),
        }
    );
    assert_eq!(h.step(Event::Announced), Action::AwaitShutdown);
    assert_eq!(h.step(Event::CompletionSignalled), Action::Close);
    assert_eq!(h.step(Event::Closed), Action::Finish);
    assert_eq!(Action::Finish.exit_code(), Some(0));
}

#[test]
fn malformed_input_ends_the_answering_side_with_nothing_announced() {
    let mut h = answer_up_to_reading_line();
    let action = h.feed_line("this is not base64\n");
    assert_eq!(action, Action::Abort(Failure::Signal(SignalError::InvalidBase64)));
    assert_eq!(action.exit_code(), Some(1));
    assert_ne!(action.exit_code(), Some(0));
    assert_eq!(h.phase(), Phase::Failed);
    assert!(h.is_over());
    for event in [
        Event::RemoteApplied,
        Event::LocalCreated,
        Event::GatheringComplete,
        Event::Local(Some(Ok(message("{}", "x")))),
        Event::Announced,
    ] {
        assert_eq!(h.step(event), Action::Ignore);
    }
}

#[test]
fn malformed_input_ends_the_offering_side_with_nothing_more_announced() {
    let mut h = offer_up_to_reading_local();
    h.feed_local(Some(descriptor(SdpKind::Offer, "v=0...")));
    assert_eq!(h.step(Event::Announced), Action::ReadLine);
    let action = h.feed_line("@@@@");
    assert_eq!(action, Action::Abort(Failure::Signal(SignalError::InvalidBase64)));
    assert_eq!(action.exit_code(), Some(1));
    assert_eq!(h.step(Event::Local(Some(Ok(message("{}", "x"))))), Action::Ignore);
    assert_eq!(h.step(Event::Announced), Action::Ignore);
}

#[test]
fn each_refusal_of_a_line_is_passed_on() {
    let cases = [
        ("/w==".to_string(), SignalError::InvalidUtf8),
        (encode("{"), SignalError::InvalidJson),
        (encode("{\"sdp\":\"v=0\"}"), SignalError::MissingType),
        (encode("{\"type\":\"none\",\"sdp\":\"v=0\"}"), SignalError::UnknownType),
        (encode("{\"type\":\"offer\"}"), SignalError::MissingSdp),
        (wire(SdpKind::Answer, "v=0"), SignalError::UnexpectedKind),
        (wire(SdpKind::Pranswer, "v=0"), SignalError::UnexpectedKind),
        (wire(SdpKind::Rollback, "v=0"), SignalError::UnexpectedKind),
    ];
    for (line, error) in cases {
        let mut h = answer_up_to_reading_line();
        assert_eq!(h.feed_line(&line), Action::Abort(Failure::Signal(error)));
        assert_eq!(h.phase(), Phase::Failed);
    }
}

#[test]
fn the_offering_side_expects_an_answer() {
    let mut h = offer_up_to_reading_local();
    h.feed_local(None);
    h.step(Event::Announced);
    assert_eq!(
        h.feed_line(&wire(SdpKind::Offer, "v=0")),
        Action::Abort(Failure::Signal(SignalError::UnexpectedKind))
    );
}

#[test]
fn an_empty_line_is_no_input() {
    for line in ["", "\n", "  \r\n"] {
        let mut h = answer_up_to_reading_line();
        let action = h.feed_line(line);
        assert_eq!(action, Action::Abort(Failure::Input));
        assert_eq!(action.exit_code(), Some(1));
    }
}

#[test]
fn a_line_is_trimmed_before_it_is_read() {
    let mut h = answer_up_to_reading_line();
    let line = format!("  {} \r\n", wire(SdpKind::Offer, "v=0"));
    assert_eq!(h.feed_line(&line), Action::SetRemoteDescription(descriptor(SdpKind::Offer, "v=0")));
}

#[test]
fn a_failed_read_ends_the_run() {
    let mut h = answer_up_to_reading_line();
    assert_eq!(h.step(Event::InputFailed), Action::Abort(Failure::Input));
    assert_eq!(h.phase(), Phase::Failed);
}

#[test]
fn the_local_descriptor_is_not_read_before_gathering_has_ended() {
    let mut h = Handshake::new(Role::Offer);
    h.step(Event::Started);
    h.step(Event::ConnectionReady);
    h.step(Event::ChannelReady);
    h.step(Event::LocalCreated);
    h.step(Event::GatheringArmed);
    assert_eq!(h.step(Event::LocalApplied), Action::AwaitGathering);
    assert_eq!(h.feed_local(Some(descriptor(SdpKind::Offer, "v=0"))), Action::Ignore);
    assert_eq!(h.step(Event::Local(Some(Ok(message("{}", "early"))))), Action::Ignore);
    assert_eq!(h.step(Event::Announced), Action::Ignore);
    assert_eq!(h.phase(), Phase::Gathering);
    assert_eq!(h.step(Event::GatheringComplete), Action::ReadLocalDescription);
    assert_eq!(
        h.step(Event::Local(Some(Ok(message("{\"now\":1}", "now"))))),
        line("now")
    );
}

#[test]
fn a_missing_local_descriptor_is_announced_as_missing() {
    let mut h = offer_up_to_reading_local();
    assert_eq!(h.feed_local(None), Action::AnnounceMissing);
    assert_eq!(h.step(Event::Announced), Action::ReadLine);
    let mut h = answer_up_to_reading_line();
    h.feed_line(&wire(SdpKind::Offer, "v=0"));
    h.step(Event::RemoteApplied);
    h.step(Event::LocalCreated);
    h.step(Event::GatheringArmed);
    h.step(Event::LocalApplied);
    h.step(Event::GatheringComplete);
    assert_eq!(h.feed_local(None), Action::AnnounceMissing);
    assert_eq!(h.step(Event::Announced), Action::AwaitShutdown);
}

#[test]
fn a_message_that_could_not_be_written_ends_the_run() {
    let mut h = offer_up_to_reading_local();
    assert_eq!(
        h.step(Event::Local(Some(Err(SignalError::TooLong)))),
        Action::Abort(Failure::Signal(SignalError::TooLong))
    );
    assert_eq!(h.phase(), Phase::Failed);
}

#[test]
fn the_wait_is_left_once() {
    let mut h = answer_up_to_reading_line();
    h.feed_line(&wire(SdpKind::Offer, "v=0"));
    h.step(Event::RemoteApplied);
    h.step(Event::LocalCreated);
    h.step(Event::GatheringArmed);
    h.step(Event::LocalApplied);
    h.step(Event::GatheringComplete);
    h.feed_local(Some(descriptor(SdpKind::Answer, "v=0")));
    assert_eq!(h.step(Event::CompletionSignalled), Action::Ignore);
    assert_eq!(h.step(Event::Announced), Action::AwaitShutdown);
    assert_eq!(h.step(Event::CompletionSignalled), Action::Close);
    assert_eq!(h.step(Event::CompletionSignalled), Action::Ignore);
    assert_eq!(h.step(Event::Interrupted), Action::Ignore);
    assert_eq!(h.step(Event::CompletionSignalled), Action::Ignore);
    assert_eq!(h.step(Event::Closed), Action::Finish);
    assert_eq!(h.step(Event::CompletionSignalled), Action::Ignore);
}

#[test]
fn a_transport_error_ends_the_run_from_every_phase() {
    let mut h = Handshake::new(Role::Offer);
    assert_eq!(h.step(Event::TransportFailed), Action::Abort(Failure::Transport));
    assert_eq!(h.step(Event::TransportFailed), Action::Ignore);
    let mut h = offer_up_to_reading_local();
    let action = h.step(Event::TransportFailed);
    assert_eq!(action, Action::Abort(Failure::Transport));
    assert_eq!(action.exit_code(), Some(1));
    assert_eq!(h.phase(), Phase::Failed);
}

#[test]
fn events_that_are_not_awaited_change_nothing() {
    let mut h = Handshake::new(Role::Answer);
    for event in [
        Event::ConnectionReady,
        Event::ChannelReady,
        Event::Remote(Ok(descriptor(SdpKind::Offer, "v=0"))),
        Event::InputFailed,
        Event::GatheringComplete,
        Event::Interrupted,
        Event::Closed,
    ] {
        assert_eq!(h.step(event), Action::Ignore);
        assert_eq!(h.phase(), Phase::Start);
    }
    h.step(Event::Started);
    h.step(Event::ConnectionReady);
    assert_eq!(h.step(Event::ChannelReady), Action::Ignore);
    assert_eq!(h.phase(), Phase::AwaitingRemote);
}

#[test]
fn only_the_end_has_an_exit_code() {
    assert_eq!(Action::Finish.exit_code(), Some(0));
    assert_eq!(Action::Abort(Failure::Input).exit_code(), Some(1));
    assert_eq!(Action::Abort(Failure::Transport).exit_code(), Some(1));
    assert_eq!(Action::Close.exit_code(), None);
    assert_eq!(Action::ReadLine.exit_code(), None);
    assert_eq!(line("x").exit_code(), None);
    assert_eq!(Action::Ignore.exit_code(), None);
}

#[test]
fn failures_are_described() {
    assert_eq!(Failure::Input.describe(), "no line could be read");
    assert_eq!(Failure::Transport.describe(), "the transport reported an error");
    assert_eq!(
        Failure::Signal(SignalError::InvalidBase64).describe(),
        SignalError::InvalidBase64.describe()
    );
    assert_eq!(SignalError::InvalidBase64.describe(), "the text is not base64");
    assert_eq!(SignalError::InvalidUtf8.describe(), "the bytes are not UTF-8 text");
    assert_eq!(SignalError::InvalidJson.describe(), "the text is not JSON");
    assert_eq!(SignalError::MissingType.describe(), "the descriptor has no type");
    assert_eq!(SignalError::UnknownType.describe(), "the descriptor is of no known type");
    assert_eq!(SignalError::MissingSdp.describe(), "the descriptor has no sdp");
    assert_eq!(
        SignalError::UnexpectedKind.describe(),
        "the descriptor is not of the kind that was expected"
    );
    assert_eq!(SignalError::TooLong.describe(), "the descriptor is too long");
}

#[test]
fn the_handshake_decision_is_what_step_does() {
    assert_eq!(
        Handshake::decide(Role::Offer, Phase::Announcing, Event::Announced),
        (Phase::AwaitingRemote, Action::ReadLine)
    );
    assert_eq!(
        Handshake::decide(Role::Answer, Phase::Announcing, Event::Announced),
        (Phase::Waiting, Action::AwaitShutdown)
    );
    assert_eq!(
        Handshake::decide(Role::Answer, Phase::Gathering, Event::Announced),
        (Phase::Gathering, Action::Ignore)
    );
    assert_eq!(
        Handshake::decide(Role::Offer, Phase::Finished, Event::TransportFailed),
        (Phase::Finished, Action::Ignore)
    );
    assert_eq!(
        Handshake::decide(Role::Offer, Phase::Failed, Event::Started),
        (Phase::Failed, Action::Ignore)
    );
    assert_eq!(
        Handshake::decide(
            Role::Answer,
            Phase::AwaitingRemote,
            Event::Remote(Ok(descriptor(SdpKind::Offer, "v=0")))
        ),
        (Phase::ApplyingRemote, Action::SetRemoteDescription(descriptor(SdpKind::Offer, "v=0")))
    );
}

#[test]
fn the_answering_side_shows_the_json_text_before_the_line() {
    let mut h = answer_up_to_reading_line();
    h.feed_line(&wire(SdpKind::Offer, "v=0"));
    h.step(Event::RemoteApplied);
    h.step(Event::LocalCreated);
    h.step(Event::GatheringArmed);
    h.step(Event::LocalApplied);
    h.step(Event::GatheringComplete);
    assert_eq!(
        h.step(Event::Local(Some(Ok(message("{\"a\":1}", "eyJhIjoxfQ=="))))),
        Action::Announce { json: Some("{\"a\":1}".to_string()), wire: "eyJhIjoxfQ==".to_string() }
    );
}

#[test]
fn the_offering_side_shows_the_line_alone() {
    let mut h = offer_up_to_reading_local();
    assert_eq!(
        h.step(Event::Local(Some(Ok(message("{\"a\":1}", "eyJhIjoxfQ=="))))),
        Action::Announce { json: None, wire: "eyJhIjoxfQ==".to_string() }
    );
}

#[test]
fn a_side_with_a_local_descriptor_announces_it() {
    for kind in [SdpKind::Offer, SdpKind::Answer, SdpKind::Pranswer, SdpKind::Rollback] {
        let mut h = offer_up_to_reading_local();
        let action = h.feed_local(Some(descriptor(kind, "v=0")));
        assert_eq!(action, line(&wire(kind, "v=0")));
        assert_eq!(h.phase(), Phase::Announcing);
    }
}
