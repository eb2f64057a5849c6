//! What a process does on its data channel: it sends a short text every few
//! seconds until a send fails, and reads what comes in as text.

use crate::codec::{text_from_utf8, text_result, utf8_text};
use crate::error::SignalError;
use crate::handshake::Role;
use vstd::prelude::*;
use vstd::slice::slice_to_vec;

verus! {

/// The seconds between two sends.
pub const SEND_PERIOD_SECONDS: u64 = 5;

/// The number of letters in a payload that is made at random.
pub const RANDOM_PAYLOAD_LETTERS: usize = 15;

/// What a side sends.
#[derive(Clone, Copy, Debug, PartialEq, Eq, Structural)]
pub enum Payload {
    /// The word `ping`.
    Ping,
    /// This many letters, picked at random for every send.
    RandomLetters(usize),
}

/// How far the sending has come.
#[derive(Clone, Copy, Debug, PartialEq, Eq, Structural)]
pub enum SendPhase {
    /// The channel is not open yet.
    Idle,
    /// The time until the next send is running.
    Sleeping,
    /// A send was asked for and has not come back.
    Sending,
    /// No more is sent.
    Stopped,
}

/// What happened to the channel.
#[derive(Clone, Copy, Debug, PartialEq, Eq, Structural)]
pub enum SendEvent {
    /// The channel is open.
    Opened,
    /// The time until the next send is over.
    TimerFired,
    /// The send went through.
    Sent,
    /// A send failed.
    SendFailed,
    /// The owner of the channel wants no more sent.
    Cancelled,
}

/// What to do on the channel.
#[derive(Clone, Copy, Debug, PartialEq, Eq, Structural)]
pub enum SendAction {
    /// Wait this many seconds.
    Sleep(u64),
    /// Send this.
    Send(Payload),
    /// Leave the loop.
    Stop,
    /// Nothing: the event was not awaited.
    Ignore,
}

/// Whether a character is a letter of the Latin alphabet, small or capital.
pub open spec fn is_letter(c: char) -> bool {
    ('a' <= c && c <= 'z') || ('A' <= c && c <= 'Z')
}

/// Whether a text is one that the payload stands for.
pub open spec fn is_text_of(payload: Payload, text: Seq<char>) -> bool {
    match payload {
        Payload::Ping => text == "ping"@,
        Payload::RandomLetters(count) => text.len() == count && forall|i: int|
            0 <= i < text.len() ==> is_letter(#[trigger] text[i]),
    }
}

/// `math_rand_alpha` of webrtc's `peer_connection`. The contract claims that
/// it returns as many characters as were asked for, and that each is a
/// letter of the Latin alphabet; which letters they are is left open.
#[verifier::external_body]
fn random_letters(count: usize) -> (text: String)
    ensures
        text@.len() == count,
        forall|i: int| 0 <= i < text@.len() ==> is_letter(#[trigger] text@[i]),
{
    webrtc::peer_connection::math_rand_alpha(count)
}

/// What a side sends: the offering side a fixed word, the answering side
/// letters at random.
pub open spec fn payload_of(role: Role) -> Payload {
    match role {
        Role::Offer => Payload::Ping,
        Role::Answer => Payload::RandomLetters(RANDOM_PAYLOAD_LETTERS),
    }
}

/// What a phase of the sending makes of an event.
pub open spec fn send_step(role: Role, phase: SendPhase, event: SendEvent) -> (
    SendPhase,
    SendAction,
) {
    match (phase, event) {
        (SendPhase::Stopped, _) => (SendPhase::Stopped, SendAction::Ignore),
        (_, SendEvent::Cancelled) => (SendPhase::Stopped, SendAction::Stop),
        (_, SendEvent::SendFailed) => (SendPhase::Stopped, SendAction::Stop),
        (SendPhase::Idle, SendEvent::Opened) => (
            SendPhase::Sleeping,
            SendAction::Sleep(SEND_PERIOD_SECONDS),
        ),
        (SendPhase::Sleeping, SendEvent::TimerFired) => (
            SendPhase::Sending,
            SendAction::Send(payload_of(role)),
        ),
        (SendPhase::Sending, SendEvent::Sent) => (
            SendPhase::Sleeping,
            SendAction::Sleep(SEND_PERIOD_SECONDS),
        ),
        _ => (phase, SendAction::Ignore),
    }
}

/// The phase of the sending after a run of events.
pub open spec fn send_phase_after(role: Role, events: Seq<SendEvent>) -> SendPhase
    decreases events.len(),
{
    if events.len() == 0 {
        SendPhase::Idle
    } else {
        send_step(role, send_phase_after(role, events.drop_last()), events.last()).0
    }
}

/// What the sending asks for when it takes the event at `i`.
pub open spec fn send_action_at(role: Role, events: Seq<SendEvent>, i: int) -> SendAction {
    send_step(role, send_phase_after(role, events.take(i)), events[i]).1
}

/// The periodic sending on one channel. It can only be made before the
/// channel opens and moved on by events, so it is always where the events
/// that it has taken have brought it.
#[derive(Clone, Copy)]
pub struct SendLoop {
    role: Role,
    phase: SendPhase,
    events: Ghost<Seq<SendEvent>>,
}

/// The sending on one channel as a mathematical value.
pub struct SendLoopView {
    /// The side that sends.
    pub role: Role,
    /// How far the sending has come.
    pub phase: SendPhase,
    /// The events that the sending has taken, the first one first.
    pub events: Seq<SendEvent>,
}

impl View for SendLoop {
    type V = SendLoopView;

    closed spec fn view(&self) -> SendLoopView {
        SendLoopView { role: self.role, phase: self.phase, events: self.events@ }
    }
}

impl SendLoop {
    #[verifier::type_invariant]
    spec fn is_where_its_events_brought_it(self) -> bool {
        self.phase == send_phase_after(self.role, self.events@)
    }

    /// The sending on a channel that is not open yet.
    pub fn new(role: Role) -> (r: SendLoop)
        ensures
            r@.role == role,
            r@.phase == SendPhase::Idle,
            r@.events == Seq::<SendEvent>::empty(),
    {
        SendLoop { role, phase: SendPhase::Idle, events: Ghost(Seq::empty()) }
    }

    /// The side that sends.
    pub fn role(&self) -> (role: Role)
        ensures
            role == self@.role,
    {
        self.role
    }

    /// How far the sending has come: where the events that it has taken have
    /// brought it.
    pub fn phase(&self) -> (phase: SendPhase)
        ensures
            phase == self@.phase,
            phase == send_phase_after(self@.role, self@.events),
    {
        proof {
            use_type_invariant(self);
        }
        self.phase
    }

    /// What this side sends.
    pub fn payload(&self) -> (p: Payload)
        ensures
            p == payload_of(self@.role),
    {
        Payload::of(self.role)
    }

    /// What a phase of the sending makes of an event: the next phase, and
    /// what to do.
    pub fn decide(role: Role, phase: SendPhase, event: SendEvent) -> (r: (SendPhase, SendAction))
        ensures
            r == send_step(role, phase, event),
    {
        match (phase, event) {
            (SendPhase::Stopped, _) => (SendPhase::Stopped, SendAction::Ignore),
            (_, SendEvent::Cancelled) => (SendPhase::Stopped, SendAction::Stop),
            (_, SendEvent::SendFailed) => (SendPhase::Stopped, SendAction::Stop),
            (SendPhase::Idle, SendEvent::Opened) => (
                SendPhase::Sleeping,
                SendAction::Sleep(SEND_PERIOD_SECONDS),
            ),
            (SendPhase::Sleeping, SendEvent::TimerFired) => (
                SendPhase::Sending,
                SendAction::Send(Payload::of(role)),
            ),
            (SendPhase::Sending, SendEvent::Sent) => (
                SendPhase::Sleeping,
                SendAction::Sleep(SEND_PERIOD_SECONDS),
            ),
            _ => (phase, SendAction::Ignore),
        }
    }

    /// Takes an event and says what to do next. The sending moves as
    /// `send_step` says, its run grows by the event, and a send is asked for
    /// only where no send has failed before.
    pub fn step(&mut self, event: SendEvent) -> (action: SendAction)
        ensures
            final(self)@.role == old(self)@.role,
            final(self)@.events == old(self)@.events.push(event),
            (final(self)@.phase, action) == send_step(old(self)@.role, old(self)@.phase, event),
            final(self)@.phase == send_phase_after(final(self)@.role, final(self)@.events),
            action == send_action_at(
                final(self)@.role,
                final(self)@.events,
                old(self)@.events.len() as int,
            ),
            action is Send ==> forall|j: int|
                0 <= j < old(self)@.events.len() ==> old(self)@.events[j] != SendEvent::SendFailed,
    {
        proof {
            use_type_invariant(&*self);
        }
        let role = self.role;
        let ghost taken = self.events@;
        let (phase, action) = Self::decide(role, self.phase, event);
        proof {
            let events = taken.push(event);
            assert(events.drop_last() =~= taken);
            assert(events.take(taken.len() as int) =~= taken);
            if action is Send {
                assert forall|j: int| 0 <= j < taken.len() implies taken[j]
                    != SendEvent::SendFailed by {
                    if taken[j] == SendEvent::SendFailed {
                        assert(events[j] == taken[j]);
                        lemma_no_send_after_failure(role, events, j, taken.len() as int);
                    }
                }
            }
        }
        *self = SendLoop { role, phase, events: Ghost(taken.push(event)) };
        action
    }
}

impl Payload {
    /// What a side sends.
    pub fn of(role: Role) -> (p: Payload)
        ensures
            p == payload_of(role),
    {
        match role {
            Role::Offer => Payload::Ping,
            Role::Answer => Payload::RandomLetters(RANDOM_PAYLOAD_LETTERS),
        }
    }

    /// A text to send for the payload: the fixed word, or letters picked
    /// anew.
    pub fn text(&self) -> (r: String)
        ensures
            is_text_of(*self, r@),
    {
        match self {
            Payload::Ping => "ping".to_owned(),
            Payload::RandomLetters(count) => random_letters(*count),
        }
    }
}

/// Once stopped, the sending stays stopped.
pub proof fn lemma_stopped_stays(role: Role, events: Seq<SendEvent>, i: int, j: int)
    requires
        0 <= i <= j <= events.len(),
        send_phase_after(role, events.take(i)) == SendPhase::Stopped,
    ensures
        send_phase_after(role, events.take(j)) == SendPhase::Stopped,
    decreases j - i,
{
    if i < j {
        lemma_stopped_stays(role, events, i, j - 1);
        assert(events.take(j).drop_last() =~= events.take(j - 1));
    }
}

/// Once a send has failed, nothing more is sent: after the step that takes
/// the failure of a send, no step asks for a send.
pub proof fn lemma_no_send_after_failure(role: Role, events: Seq<SendEvent>, i: int, j: int)
    requires
        0 <= i < j < events.len(),
        events[i] == SendEvent::SendFailed,
    ensures
        !(send_action_at(role, events, j) is Send),
{
    assert(events.take(i + 1).drop_last() =~= events.take(i));
    assert(events.take(i + 1).last() == events[i]);
    lemma_stopped_stays(role, events, i + 1, j);
}

/// Once the loop was left, nothing more is sent: after a step that asks to
/// stop, whatever the reason, no step asks for a send.
pub proof fn lemma_no_send_after_stop(role: Role, events: Seq<SendEvent>, i: int, j: int)
    requires
        0 <= i < j < events.len(),
        send_action_at(role, events, i) == SendAction::Stop,
    ensures
        send_action_at(role, events, j) == SendAction::Ignore,
{
    assert(events.take(i + 1).drop_last() =~= events.take(i));
    assert(events.take(i + 1).last() == events[i]);
    lemma_stopped_stays(role, events, i + 1, j);
}

/// Every send waits for its time: a step asks for a send only when it takes
/// the end of a wait.
pub proof fn lemma_send_follows_timer(role: Role, events: Seq<SendEvent>, i: int)
    requires
        0 <= i < events.len(),
        send_action_at(role, events, i) is Send,
    ensures
        events[i] == SendEvent::TimerFired,
        send_action_at(role, events, i) == SendAction::Send(payload_of(role)),
{
}

/// What came in on the channel, read as text: the characters that the bytes
/// encode, or `InvalidUtf8` where they are no UTF-8.
pub fn decode_message(payload: &[u8]) -> (r: Result<String, SignalError>)
    ensures
        text_result(r) == utf8_text(payload@),
{
    text_from_utf8(slice_to_vec(payload))
}

} // verus!
