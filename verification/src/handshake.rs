//! The handshake of one process, as a machine that is told what happened and
//! answers with what to do next.

use crate::descriptor::{
    descriptor_of_wire, descriptor_result, message_of, message_result, DescriptorView,
    MessageView, SdpKind, SessionDescriptor, SignalingMessage,
};
use crate::error::SignalError;
use crate::runs::{keeps_the_order, lemma_keeps_the_order};
use crate::text::{trim_line, trimmed};
use vstd::prelude::*;

verus! {

/// Which side of the handshake a process takes.
#[derive(Clone, Copy, Debug, PartialEq, Eq, Structural)]
pub enum Role {
    /// The side that makes the offer and opens the data channel.
    Offer,
    /// The side that is given the offer and answers it.
    Answer,
}

impl Role {
    /// The kind of descriptor that the role expects from its peer.
    pub open spec fn remote_kind(self) -> SdpKind {
        match self {
            Role::Offer => SdpKind::Answer,
            Role::Answer => SdpKind::Offer,
        }
    }

    /// The kind of descriptor that the role makes itself.
    pub open spec fn local_kind(self) -> SdpKind {
        match self {
            Role::Offer => SdpKind::Offer,
            Role::Answer => SdpKind::Answer,
        }
    }

    /// The kind of descriptor that the role expects from its peer.
    pub fn expected_from_peer(&self) -> (kind: SdpKind)
        ensures
            kind == self.remote_kind(),
    {
        match self {
            Role::Offer => SdpKind::Answer,
            Role::Answer => SdpKind::Offer,
        }
    }

    /// The kind of descriptor that the role makes itself.
    pub fn made_locally(&self) -> (kind: SdpKind)
        ensures
            kind == self.local_kind(),
    {
        match self {
            Role::Offer => SdpKind::Offer,
            Role::Answer => SdpKind::Answer,
        }
    }
}

/// How far the handshake has come: what was last asked for.
#[derive(Clone, Copy, Debug, PartialEq, Eq, Structural)]
pub enum Phase {
    /// Nothing was asked for yet.
    Start,
    /// The connection was asked for.
    Connecting,
    /// The data channel was asked for.
    OpeningChannel,
    /// The line that the peer's descriptor comes in was asked for.
    AwaitingRemote,
    /// The transport was given the peer's descriptor.
    ApplyingRemote,
    /// The transport was asked to make the local descriptor.
    CreatingLocal,
    /// The watch for the end of candidate gathering was asked for.
    ArmingGathering,
    /// The transport was given the local descriptor.
    ApplyingLocal,
    /// The end of candidate gathering is waited for.
    Gathering,
    /// The transport was asked for the local descriptor as it now stands.
    ReadingLocal,
    /// The signaling message, or the notice that there is none, is being shown.
    Announcing,
    /// The completion signal or an interrupt is waited for.
    Waiting,
    /// The connection is being closed.
    Closing,
    /// The process is to end in good order.
    Finished,
    /// The process is to end on a fatal error.
    Failed,
}

/// Why a handshake was given up.
#[derive(Clone, Copy, Debug, PartialEq, Eq, Structural)]
pub enum Failure {
    /// No line could be read, or the line was empty.
    Input,
    /// The transport reported an error.
    Transport,
    /// A signaling message was refused.
    Signal(SignalError),
}

/// What happened outside the machine.
#[derive(Debug, PartialEq, Eq)]
pub enum Event {
    /// The process has started.
    Started,
    /// The connection is there.
    ConnectionReady,
    /// The data channel is there.
    ChannelReady,
    /// A line was read, and this is what it holds.
    Remote(Result<SessionDescriptor, SignalError>),
    /// No line could be read, or the line was empty.
    InputFailed,
    /// The transport has taken the peer's descriptor.
    RemoteApplied,
    /// The transport has made the local descriptor.
    LocalCreated,
    /// The watch for the end of candidate gathering is set.
    GatheringArmed,
    /// The transport has taken the local descriptor.
    LocalApplied,
    /// Candidate gathering has ended.
    GatheringComplete,
    /// The transport was asked for the local descriptor: it has none, or this
    /// is the descriptor written out, or the reason why it could not be.
    Local(Option<Result<SignalingMessage, SignalError>>),
    /// The message or the notice was shown.
    Announced,
    /// The completion signal came.
    CompletionSignalled,
    /// The operator interrupted the process.
    Interrupted,
    /// The connection is closed.
    Closed,
    /// The transport reported an error.
    TransportFailed,
}

/// What the machine asks for.
#[derive(Debug, PartialEq, Eq)]
pub enum Action {
    /// Set the transport up and make the connection.
    CreateConnection,
    /// Make the data channel.
    CreateDataChannel,
    /// Read one line from standard input.
    ReadLine,
    /// Give this descriptor to the transport as the peer's.
    SetRemoteDescription(SessionDescriptor),
    /// Have the transport make the offer, or the answer.
    CreateLocalDescription,
    /// Set the watch for the end of candidate gathering.
    ArmGathering,
    /// Give the transport the descriptor that it has made, as the local one.
    SetLocalDescription,
    /// Wait until candidate gathering has ended.
    AwaitGathering,
    /// Ask the transport for the local descriptor as it now stands.
    ReadLocalDescription,
    /// Show the operator the line `wire` to hand to the peer, and before it
    /// the JSON text, where there is one.
    Announce { json: Option<String>, wire: String },
    /// Tell the operator that there is no local descriptor.
    AnnounceMissing,
    /// Wait for the completion signal or an interrupt.
    AwaitShutdown,
    /// Close the connection.
    Close,
    /// End the process in good order.
    Finish,
    /// End the process on a fatal error.
    Abort(Failure),
    /// Nothing: the event was not awaited.
    Ignore,
}

/// An event as a mathematical value, variant for variant.
pub enum EventView {
    Started,
    ConnectionReady,
    ChannelReady,
    Remote(Result<DescriptorView, SignalError>),
    InputFailed,
    RemoteApplied,
    LocalCreated,
    GatheringArmed,
    LocalApplied,
    GatheringComplete,
    Local(Option<Result<MessageView, SignalError>>),
    Announced,
    CompletionSignalled,
    Interrupted,
    Closed,
    TransportFailed,
}

/// An action as a mathematical value, variant for variant.
pub enum ActionView {
    CreateConnection,
    CreateDataChannel,
    ReadLine,
    SetRemoteDescription(DescriptorView),
    CreateLocalDescription,
    ArmGathering,
    SetLocalDescription,
    AwaitGathering,
    ReadLocalDescription,
    Announce { json: Option<Seq<char>>, wire: Seq<char> },
    AnnounceMissing,
    AwaitShutdown,
    Close,
    Finish,
    Abort(Failure),
    Ignore,
}

impl View for Event {
    type V = EventView;

    open spec fn view(&self) -> EventView {
        match *self {
            Event::Started => EventView::Started,
            Event::ConnectionReady => EventView::ConnectionReady,
            Event::ChannelReady => EventView::ChannelReady,
            Event::Remote(r) => EventView::Remote(descriptor_result(r)),
            Event::InputFailed => EventView::InputFailed,
            Event::RemoteApplied => EventView::RemoteApplied,
            Event::LocalCreated => EventView::LocalCreated,
            Event::GatheringArmed => EventView::GatheringArmed,
            Event::LocalApplied => EventView::LocalApplied,
            Event::GatheringComplete => EventView::GatheringComplete,
            Event::Local(None) => EventView::Local(None),
            Event::Local(Some(r)) => EventView::Local(Some(message_result(r))),
            Event::Announced => EventView::Announced,
            Event::CompletionSignalled => EventView::CompletionSignalled,
            Event::Interrupted => EventView::Interrupted,
            Event::Closed => EventView::Closed,
            Event::TransportFailed => EventView::TransportFailed,
        }
    }
}

impl View for Action {
    type V = ActionView;

    open spec fn view(&self) -> ActionView {
        match *self {
            Action::CreateConnection => ActionView::CreateConnection,
            Action::CreateDataChannel => ActionView::CreateDataChannel,
            Action::ReadLine => ActionView::ReadLine,
            Action::SetRemoteDescription(d) => ActionView::SetRemoteDescription(d@),
            Action::CreateLocalDescription => ActionView::CreateLocalDescription,
            Action::ArmGathering => ActionView::ArmGathering,
            Action::SetLocalDescription => ActionView::SetLocalDescription,
            Action::AwaitGathering => ActionView::AwaitGathering,
            Action::ReadLocalDescription => ActionView::ReadLocalDescription,
            Action::Announce { json: None, wire } => ActionView::Announce {
                json: None,
                wire: wire@,
            },
            Action::Announce { json: Some(json), wire } => ActionView::Announce {
                json: Some(json@),
                wire: wire@,
            },
            Action::AnnounceMissing => ActionView::AnnounceMissing,
            Action::AwaitShutdown => ActionView::AwaitShutdown,
            Action::Close => ActionView::Close,
            Action::Finish => ActionView::Finish,
            Action::Abort(failure) => ActionView::Abort(failure),
            Action::Ignore => ActionView::Ignore,
        }
    }
}

/// The JSON text that a side shows before the line for the peer: the
/// answering side shows it, the offering side does not.
pub open spec fn shown_json(role: Role, json: Seq<char>) -> Option<Seq<char>> {
    match role {
        Role::Offer => None,
        Role::Answer => Some(json),
    }
}

/// What a phase makes of an event: the next phase, and what to do.
pub open spec fn step_spec(role: Role, phase: Phase, event: EventView) -> (Phase, ActionView) {
    if phase == Phase::Finished || phase == Phase::Failed {
        (phase, ActionView::Ignore)
    } else if event is TransportFailed {
        (Phase::Failed, ActionView::Abort(Failure::Transport))
    } else {
        match (phase, event) {
            (Phase::Start, EventView::Started) => (Phase::Connecting, ActionView::CreateConnection),
            (Phase::Connecting, EventView::ConnectionReady) => match role {
                Role::Offer => (Phase::OpeningChannel, ActionView::CreateDataChannel),
                Role::Answer => (Phase::AwaitingRemote, ActionView::ReadLine),
            },
            (Phase::OpeningChannel, EventView::ChannelReady) => match role {
                Role::Offer => (Phase::CreatingLocal, ActionView::CreateLocalDescription),
                Role::Answer => (phase, ActionView::Ignore),
            },
            (Phase::AwaitingRemote, EventView::Remote(Ok(d))) => if d.kind == role.remote_kind() {
                (Phase::ApplyingRemote, ActionView::SetRemoteDescription(d))
            } else {
                (Phase::Failed, ActionView::Abort(Failure::Signal(SignalError::UnexpectedKind)))
            },
            (Phase::AwaitingRemote, EventView::Remote(Err(e))) => (
                Phase::Failed,
                ActionView::Abort(Failure::Signal(e)),
            ),
            (Phase::AwaitingRemote, EventView::InputFailed) => (
                Phase::Failed,
                ActionView::Abort(Failure::Input),
            ),
            (Phase::ApplyingRemote, EventView::RemoteApplied) => match role {
                Role::Offer => (Phase::Waiting, ActionView::AwaitShutdown),
                Role::Answer => (Phase::CreatingLocal, ActionView::CreateLocalDescription),
            },
            (Phase::CreatingLocal, EventView::LocalCreated) => (
                Phase::ArmingGathering,
                ActionView::ArmGathering,
            ),
            (Phase::ArmingGathering, EventView::GatheringArmed) => (
                Phase::ApplyingLocal,
                ActionView::SetLocalDescription,
            ),
            (Phase::ApplyingLocal, EventView::LocalApplied) => (
                Phase::Gathering,
                ActionView::AwaitGathering,
            ),
            (Phase::Gathering, EventView::GatheringComplete) => (
                Phase::ReadingLocal,
                ActionView::ReadLocalDescription,
            ),
            (Phase::ReadingLocal, EventView::Local(None)) => (
                Phase::Announcing,
                ActionView::AnnounceMissing,
            ),
            (Phase::ReadingLocal, EventView::Local(Some(Ok(message)))) => (
                Phase::Announcing,
                ActionView::Announce { json: shown_json(role, message.json), wire: message.wire },
            ),
            (Phase::ReadingLocal, EventView::Local(Some(Err(e)))) => (
                Phase::Failed,
                ActionView::Abort(Failure::Signal(e)),
            ),
            (Phase::Announcing, EventView::Announced) => match role {
                Role::Offer => (Phase::AwaitingRemote, ActionView::ReadLine),
                Role::Answer => (Phase::Waiting, ActionView::AwaitShutdown),
            },
            (Phase::Waiting, EventView::CompletionSignalled) => (Phase::Closing, ActionView::Close),
            (Phase::Waiting, EventView::Interrupted) => (Phase::Closing, ActionView::Close),
            (Phase::Closing, EventView::Closed) => (Phase::Finished, ActionView::Finish),
            _ => (phase, ActionView::Ignore),
        }
    }
}

/// What a pasted line is to the machine: no input where it holds nothing but
/// white space, else the descriptor that it holds, or the reason why it holds
/// none.
pub open spec fn line_event(line: Seq<char>) -> EventView {
    if trimmed(line).len() == 0 {
        EventView::InputFailed
    } else {
        EventView::Remote(descriptor_of_wire(trimmed(line)))
    }
}

/// The phase that the machine is in after a run of events.
pub open spec fn phase_after(role: Role, events: Seq<EventView>) -> Phase
    decreases events.len(),
{
    if events.len() == 0 {
        Phase::Start
    } else {
        step_spec(role, phase_after(role, events.drop_last()), events.last()).0
    }
}

/// The phase that the machine is in when it takes the event at `i`.
pub open spec fn phase_before(role: Role, events: Seq<EventView>, i: int) -> Phase {
    phase_after(role, events.take(i))
}

/// What the machine asks for when it takes the event at `i`.
pub open spec fn action_at(role: Role, events: Seq<EventView>, i: int) -> ActionView {
    step_spec(role, phase_before(role, events, i), events[i]).1
}

/// What the local descriptor that the transport gave is to the machine: that
/// there is none, or the descriptor written out, or that its line would be
/// too long.
pub open spec fn local_event(local: Option<SessionDescriptor>) -> EventView {
    match local {
        None => EventView::Local(None),
        Some(d) => EventView::Local(Some(message_of(d@))),
    }
}

/// The handshake of one process. It can only be made at the start and moved
/// on by events, so it is always where the events that it has taken have
/// brought it.
#[derive(Clone, Copy)]
pub struct Handshake {
    role: Role,
    phase: Phase,
    events: Ghost<Seq<EventView>>,
}

/// A handshake as a mathematical value.
pub struct HandshakeView {
    /// The side that the process takes.
    pub role: Role,
    /// How far the handshake has come.
    pub phase: Phase,
    /// The events that the handshake has taken, the first one first.
    pub events: Seq<EventView>,
}

impl View for Handshake {
    type V = HandshakeView;

    closed spec fn view(&self) -> HandshakeView {
        HandshakeView { role: self.role, phase: self.phase, events: self.events@ }
    }
}

impl Handshake {
    #[verifier::type_invariant]
    spec fn is_where_its_events_brought_it(self) -> bool {
        self.phase == phase_after(self.role, self.events@)
    }

    /// A handshake that has not begun.
    pub fn new(role: Role) -> (r: Handshake)
        ensures
            r@.role == role,
            r@.phase == Phase::Start,
            r@.events == Seq::<EventView>::empty(),
    {
        Handshake { role, phase: Phase::Start, events: Ghost(Seq::empty()) }
    }

    /// The side that the process takes.
    pub fn role(&self) -> (role: Role)
        ensures
            role == self@.role,
    {
        self.role
    }

    /// How far the handshake has come: where the events that it has taken
    /// have brought it.
    pub fn phase(&self) -> (phase: Phase)
        ensures
            phase == self@.phase,
            phase == phase_after(self@.role, self@.events),
    {
        proof {
            use_type_invariant(self);
        }
        self.phase
    }

    /// Whether the process is to end.
    pub fn is_over(&self) -> (r: bool)
        ensures
            r == (self@.phase == Phase::Finished || self@.phase == Phase::Failed),
    {
        match self.phase {
            Phase::Finished => true,
            Phase::Failed => true,
            _ => false,
        }
    }

    /// What a phase makes of an event: the next phase, and what to do.
    pub fn decide(role: Role, phase: Phase, event: Event) -> (r: (Phase, Action))
        ensures
            (r.0, r.1@) == step_spec(role, phase, event@),
    {
        if let Phase::Finished = phase {
            return (phase, Action::Ignore);
        }
        if let Phase::Failed = phase {
            return (phase, Action::Ignore);
        }
        if let Event::TransportFailed = event {
            return (Phase::Failed, Action::Abort(Failure::Transport));
        }
        match (phase, event) {
            (Phase::Start, Event::Started) => (Phase::Connecting, Action::CreateConnection),
            (Phase::Connecting, Event::ConnectionReady) => match role {
                Role::Offer => (Phase::OpeningChannel, Action::CreateDataChannel),
                Role::Answer => (Phase::AwaitingRemote, Action::ReadLine),
            },
            (Phase::OpeningChannel, Event::ChannelReady) => match role {
                Role::Offer => (Phase::CreatingLocal, Action::CreateLocalDescription),
                Role::Answer => (phase, Action::Ignore),
            },
            (Phase::AwaitingRemote, Event::Remote(Ok(d))) => {
                if d.kind() == role.expected_from_peer() {
                    (Phase::ApplyingRemote, Action::SetRemoteDescription(d))
                } else {
                    (Phase::Failed, Action::Abort(Failure::Signal(SignalError::UnexpectedKind)))
                }
            },
            (Phase::AwaitingRemote, Event::Remote(Err(e))) => (
                Phase::Failed,
                Action::Abort(Failure::Signal(e)),
            ),
            (Phase::AwaitingRemote, Event::InputFailed) => (
                Phase::Failed,
                Action::Abort(Failure::Input),
            ),
            (Phase::ApplyingRemote, Event::RemoteApplied) => match role {
                Role::Offer => (Phase::Waiting, Action::AwaitShutdown),
                Role::Answer => (Phase::CreatingLocal, Action::CreateLocalDescription),
            },
            (Phase::CreatingLocal, Event::LocalCreated) => (
                Phase::ArmingGathering,
                Action::ArmGathering,
            ),
            (Phase::ArmingGathering, Event::GatheringArmed) => (
                Phase::ApplyingLocal,
                Action::SetLocalDescription,
            ),
            (Phase::ApplyingLocal, Event::LocalApplied) => (
                Phase::Gathering,
                Action::AwaitGathering,
            ),
            (Phase::Gathering, Event::GatheringComplete) => (
                Phase::ReadingLocal,
                Action::ReadLocalDescription,
            ),
            (Phase::ReadingLocal, Event::Local(None)) => (
                Phase::Announcing,
                Action::AnnounceMissing,
            ),
            (Phase::ReadingLocal, Event::Local(Some(Ok(message)))) => match role {
                Role::Offer => (
                    Phase::Announcing,
                    Action::Announce { json: None, wire: message.wire },
                ),
                Role::Answer => (
                    Phase::Announcing,
                    Action::Announce { json: Some(message.json), wire: message.wire },
                ),
            },
            (Phase::ReadingLocal, Event::Local(Some(Err(e)))) => (
                Phase::Failed,
                Action::Abort(Failure::Signal(e)),
            ),
            (Phase::Announcing, Event::Announced) => match role {
                Role::Offer => (Phase::AwaitingRemote, Action::ReadLine),
                Role::Answer => (Phase::Waiting, Action::AwaitShutdown),
            },
            (Phase::Waiting, Event::CompletionSignalled) => (Phase::Closing, Action::Close),
            (Phase::Waiting, Event::Interrupted) => (Phase::Closing, Action::Close),
            (Phase::Closing, Event::Closed) => (Phase::Finished, Action::Finish),
            _ => (phase, Action::Ignore),
        }
    }

    /// Takes an event and says what to do next. The handshake moves as
    /// `step_spec` says, its run grows by the event, and the step keeps the
    /// order that every step of every run keeps.
    pub fn step(&mut self, event: Event) -> (action: Action)
        ensures
            final(self)@.role == old(self)@.role,
            final(self)@.events == old(self)@.events.push(event@),
            (final(self)@.phase, action@) == step_spec(old(self)@.role, old(self)@.phase, event@),
            final(self)@.phase == phase_after(final(self)@.role, final(self)@.events),
            action@ == action_at(
                final(self)@.role,
                final(self)@.events,
                old(self)@.events.len() as int,
            ),
            keeps_the_order(
                final(self)@.role,
                final(self)@.events,
                old(self)@.events.len() as int,
            ),
    {
        proof {
            use_type_invariant(&*self);
        }
        let role = self.role;
        let ghost taken = self.events@;
        let ghost event_view = event@;
        let (phase, action) = Self::decide(role, self.phase, event);
        proof {
            let events = taken.push(event_view);
            assert(events.drop_last() =~= taken);
            assert(events.take(taken.len() as int) =~= taken);
            lemma_keeps_the_order(role, events, taken.len() as int);
        }
        *self = Handshake { role, phase, events: Ghost(taken.push(event_view)) };
        action
    }

    /// Takes the line that was read and says what to do next.
    pub fn feed_line(&mut self, line: &str) -> (action: Action)
        ensures
            final(self)@.role == old(self)@.role,
            final(self)@.events == old(self)@.events.push(line_event(line@)),
            (final(self)@.phase, action@) == step_spec(
                old(self)@.role,
                old(self)@.phase,
                line_event(line@),
            ),
            action@ == action_at(
                final(self)@.role,
                final(self)@.events,
                old(self)@.events.len() as int,
            ),
            keeps_the_order(
                final(self)@.role,
                final(self)@.events,
                old(self)@.events.len() as int,
            ),
    {
        let text = trim_line(line);
        if text.as_str().is_empty() {
            self.step(Event::InputFailed)
        } else {
            let remote = SessionDescriptor::from_wire(text.as_str());
            self.step(Event::Remote(remote))
        }
    }

    /// Takes what the transport gave as its local descriptor, writes it out
    /// for the peer, and says what to do next.
    pub fn feed_local(&mut self, local: Option<SessionDescriptor>) -> (action: Action)
        ensures
            final(self)@.role == old(self)@.role,
            final(self)@.events == old(self)@.events.push(local_event(local)),
            (final(self)@.phase, action@) == step_spec(
                old(self)@.role,
                old(self)@.phase,
                local_event(local),
            ),
            action@ == action_at(
                final(self)@.role,
                final(self)@.events,
                old(self)@.events.len() as int,
            ),
            keeps_the_order(
                final(self)@.role,
                final(self)@.events,
                old(self)@.events.len() as int,
            ),
    {
        match local {
            None => self.step(Event::Local(None)),
            Some(d) => {
                let message = d.to_message();
                self.step(Event::Local(Some(message)))
            },
        }
    }
}

impl Failure {
    /// Why the handshake was given up, in words.
    pub open spec fn text(self) -> Seq<char> {
        match self {
            Failure::Input => "no line could be read"@,
            Failure::Transport => "the transport reported an error"@,
            Failure::Signal(e) => e.text(),
        }
    }

    /// Why the handshake was given up, in words.
    pub fn describe(&self) -> (r: &'static str)
        ensures
            r@ == self.text(),
    {
        match self {
            Failure::Input => "no line could be read",
            Failure::Transport => "the transport reported an error",
            Failure::Signal(e) => e.describe(),
        }
    }
}

impl Action {
    /// The exit status that the action ends the process with, if it ends it:
    /// zero in good order, one on a fatal error.
    pub fn exit_code(&self) -> (code: Option<u8>)
        ensures
            code == match self@ {
                ActionView::Finish => Some(0u8),
                ActionView::Abort(_) => Some(1u8),
                _ => None,
            },
    {
        match self {
            Action::Finish => Some(0),
            Action::Abort(_) => Some(1),
            _ => None,
        }
    }
}

} // verus!
