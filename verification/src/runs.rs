//! Runs of the handshake machine, and what holds of every run.

use crate::handshake::{
    action_at, phase_after, phase_before, step_spec, ActionView, EventView, Phase, Role,
};
use vstd::prelude::*;

verus! {

/// Whether the step at `i` asks to show something to the operator: the
/// signaling message, or the notice that there is none.
pub open spec fn announces(role: Role, events: Seq<EventView>, i: int) -> bool {
    action_at(role, events, i) is Announce || action_at(role, events, i) is AnnounceMissing
}

/// Whether the step at `i` takes a descriptor of the kind that the role
/// expects, and asks to give the transport that very descriptor.
pub open spec fn hands_on(role: Role, events: Seq<EventView>, i: int) -> bool {
    events[i] matches EventView::Remote(Ok(d)) && d.kind == role.remote_kind() && action_at(
        role,
        events,
        i,
    ) == ActionView::SetRemoteDescription(d)
}

/// How far along its way a phase is, for the role.
pub open spec fn rank(role: Role, phase: Phase) -> int {
    match role {
        Role::Offer => match phase {
            Phase::Start => 0,
            Phase::Connecting => 1,
            Phase::OpeningChannel => 2,
            Phase::CreatingLocal => 3,
            Phase::ArmingGathering => 4,
            Phase::ApplyingLocal => 5,
            Phase::Gathering => 6,
            Phase::ReadingLocal => 7,
            Phase::Announcing => 8,
            Phase::AwaitingRemote => 9,
            Phase::ApplyingRemote => 10,
            Phase::Waiting => 11,
            Phase::Closing => 12,
            Phase::Finished => 13,
            Phase::Failed => 14,
        },
        Role::Answer => match phase {
            Phase::Start => 0,
            Phase::Connecting => 1,
            Phase::OpeningChannel => 1,
            Phase::AwaitingRemote => 2,
            Phase::ApplyingRemote => 3,
            Phase::CreatingLocal => 4,
            Phase::ArmingGathering => 5,
            Phase::ApplyingLocal => 6,
            Phase::Gathering => 7,
            Phase::ReadingLocal => 8,
            Phase::Announcing => 9,
            Phase::Waiting => 10,
            Phase::Closing => 11,
            Phase::Finished => 12,
            Phase::Failed => 13,
        },
    }
}

/// The place of a request in the order of its role, counted from zero. The
/// offering side connects, opens the channel, makes and applies its offer,
/// waits for gathering, reads and announces the offer, and then reads the
/// line and applies the answer. The answering side connects, reads the line
/// and applies the offer, and then makes, applies, reads and announces its
/// answer. Both then wait, close and finish. What is no request of the role
/// has no place, which is written as -1.
pub open spec fn place(role: Role, action: ActionView) -> int {
    match role {
        Role::Offer => match action {
            ActionView::CreateConnection => 0,
            ActionView::CreateDataChannel => 1,
            ActionView::CreateLocalDescription => 2,
            ActionView::ArmGathering => 3,
            ActionView::SetLocalDescription => 4,
            ActionView::AwaitGathering => 5,
            ActionView::ReadLocalDescription => 6,
            ActionView::Announce { .. } => 7,
            ActionView::AnnounceMissing => 7,
            ActionView::ReadLine => 8,
            ActionView::SetRemoteDescription(_) => 9,
            ActionView::AwaitShutdown => 10,
            ActionView::Close => 11,
            ActionView::Finish => 12,
            ActionView::Abort(_) => -1,
            ActionView::Ignore => -1,
        },
        Role::Answer => match action {
            ActionView::CreateConnection => 0,
            ActionView::ReadLine => 1,
            ActionView::SetRemoteDescription(_) => 2,
            ActionView::CreateLocalDescription => 3,
            ActionView::ArmGathering => 4,
            ActionView::SetLocalDescription => 5,
            ActionView::AwaitGathering => 6,
            ActionView::ReadLocalDescription => 7,
            ActionView::Announce { .. } => 8,
            ActionView::AnnounceMissing => 8,
            ActionView::AwaitShutdown => 9,
            ActionView::Close => 10,
            ActionView::Finish => 11,
            ActionView::CreateDataChannel => -1,
            ActionView::Abort(_) => -1,
            ActionView::Ignore => -1,
        },
    }
}

/// The phase after the event at `i` is the step from the phase before it.
pub proof fn lemma_phase_step(role: Role, events: Seq<EventView>, i: int)
    requires
        0 <= i < events.len(),
    ensures
        phase_before(role, events, i + 1) == step_spec(
            role,
            phase_before(role, events, i),
            events[i],
        ).0,
{
    let upto = events.take(i + 1);
    assert(upto.drop_last() =~= events.take(i));
    assert(upto.last() == events[i]);
}

/// A step never goes back. A step that asks for nothing stays where it is,
/// and a step that makes a request of the role makes the one whose place is
/// the rank of the phase, and goes one phase on.
pub proof fn lemma_step_forward(role: Role, phase: Phase, event: EventView)
    ensures
        rank(role, phase) <= rank(role, step_spec(role, phase, event).0),
        step_spec(role, phase, event).1 is Ignore ==> step_spec(role, phase, event).0 == phase,
        step_spec(role, phase, event).1 is Abort ==> step_spec(role, phase, event).0
            == Phase::Failed,
        place(role, step_spec(role, phase, event).1) >= 0 ==> place(
            role,
            step_spec(role, phase, event).1,
        ) == rank(role, phase) && rank(role, step_spec(role, phase, event).0) == rank(role, phase)
            + 1,
        place(role, step_spec(role, phase, event).1) >= 0 || step_spec(role, phase, event).1
            is Ignore || step_spec(role, phase, event).1 is Abort,
{
}

/// The machine never goes back: a later phase of a run is at least as far
/// along as an earlier one.
pub proof fn lemma_never_back(role: Role, events: Seq<EventView>, i: int, j: int)
    requires
        0 <= i <= j <= events.len(),
    ensures
        rank(role, phase_before(role, events, i)) <= rank(role, phase_before(role, events, j)),
    decreases j - i,
{
    if i < j {
        lemma_never_back(role, events, i, j - 1);
        lemma_phase_step(role, events, j - 1);
        lemma_step_forward(role, phase_before(role, events, j - 1), events[j - 1]);
    }
}

/// A prefix of a run does what the run does.
proof fn lemma_prefix(role: Role, events: Seq<EventView>, n: int, i: int)
    requires
        0 <= i <= n <= events.len(),
    ensures
        phase_before(role, events.take(n), i) == phase_before(role, events, i),
        i < n ==> action_at(role, events.take(n), i) == action_at(role, events, i),
{
    assert(events.take(n).take(i) =~= events.take(i));
}

/// Requests come in the order of the role, and none comes twice: of two
/// requests of a run, the later one has the later place.
pub proof fn lemma_requests_in_order(role: Role, events: Seq<EventView>, i: int, j: int)
    requires
        0 <= i < j < events.len(),
        place(role, action_at(role, events, i)) >= 0,
        place(role, action_at(role, events, j)) >= 0,
    ensures
        place(role, action_at(role, events, i)) < place(role, action_at(role, events, j)),
{
    lemma_phase_step(role, events, i);
    lemma_step_forward(role, phase_before(role, events, i), events[i]);
    lemma_never_back(role, events, i + 1, j);
    lemma_step_forward(role, phase_before(role, events, j), events[j]);
}

/// A run that has come to a phase past the start, and has not failed, has
/// made the request that leads into that phase.
proof fn lemma_phase_was_asked_for(role: Role, events: Seq<EventView>) -> (j: int)
    requires
        phase_after(role, events) != Phase::Failed,
        rank(role, phase_after(role, events)) > 0,
    ensures
        0 <= j < events.len(),
        place(role, action_at(role, events, j)) == rank(role, phase_after(role, events)) - 1,
    decreases events.len(),
{
    let shorter = events.drop_last();
    let last = events.len() - 1;
    assert(events.take(last) =~= shorter);
    lemma_step_forward(role, phase_after(role, shorter), events.last());
    if action_at(role, events, last) is Ignore {
        let j = lemma_phase_was_asked_for(role, shorter);
        lemma_prefix(role, events, last, j);
        j
    } else {
        last
    }
}

/// No request is skipped: a request that is not the first of its role comes
/// after the request that has the place before its own.
pub proof fn lemma_no_request_skipped(role: Role, events: Seq<EventView>, i: int)
    requires
        0 <= i < events.len(),
        place(role, action_at(role, events, i)) > 0,
    ensures
        exists|j: int|
            0 <= j < i && place(role, #[trigger] action_at(role, events, j)) == place(
                role,
                action_at(role, events, i),
            ) - 1,
{
    lemma_step_forward(role, phase_before(role, events, i), events[i]);
    let j = lemma_phase_was_asked_for(role, events.take(i));
    lemma_prefix(role, events, i, j);
}

/// The local descriptor is neither asked for nor shown before candidate
/// gathering has ended: whenever a run asks the transport for it, or
/// announces, the event that gathering is complete has come before.
pub proof fn lemma_local_descriptor_waits_for_gathering(
    role: Role,
    events: Seq<EventView>,
    i: int,
)
    requires
        0 <= i < events.len(),
        action_at(role, events, i) is ReadLocalDescription || announces(role, events, i),
    ensures
        exists|j: int| 0 <= j <= i && (#[trigger] events[j]) is GatheringComplete,
{
    if action_at(role, events, i) is ReadLocalDescription {
        assert(events[i] is GatheringComplete);
    } else {
        lemma_no_request_skipped(role, events, i);
        let j = choose|j: int|
            0 <= j < i && place(role, #[trigger] action_at(role, events, j)) == place(
                role,
                action_at(role, events, i),
            ) - 1;
        assert(action_at(role, events, j) is ReadLocalDescription);
        assert(events[j] is GatheringComplete);
    }
}

/// The offering side shows its message before it reads: whenever a run of
/// that side asks for a line, it has asked for the announcement before.
pub proof fn lemma_offer_announces_before_it_reads(events: Seq<EventView>, i: int)
    requires
        0 <= i < events.len(),
        action_at(Role::Offer, events, i) is ReadLine,
    ensures
        exists|j: int| 0 <= j < i && announces(Role::Offer, events, j),
{
    lemma_no_request_skipped(Role::Offer, events, i);
    let j = choose|j: int|
        0 <= j < i && place(Role::Offer, #[trigger] action_at(Role::Offer, events, j)) == place(
            Role::Offer,
            action_at(Role::Offer, events, i),
        ) - 1;
    assert(announces(Role::Offer, events, j));
}

/// The answering side hands the offer on before it asks for an answer:
/// whenever a run of that side asks the transport to make the local
/// descriptor, it has before given the transport the very descriptor that
/// the line held, and that descriptor is an offer.
pub proof fn lemma_answer_applies_the_offer_first(events: Seq<EventView>, i: int)
    requires
        0 <= i < events.len(),
        action_at(Role::Answer, events, i) is CreateLocalDescription,
    ensures
        exists|j: int| 0 <= j < i && hands_on(Role::Answer, events, j),
{
    lemma_no_request_skipped(Role::Answer, events, i);
    let j = choose|j: int|
        0 <= j < i && place(Role::Answer, #[trigger] action_at(Role::Answer, events, j)) == place(
            Role::Answer,
            action_at(Role::Answer, events, i),
        ) - 1;
    assert(hands_on(Role::Answer, events, j));
}

/// What holds of every step of every run: the local descriptor waits for the
/// end of gathering, the offering side announces before it reads, the
/// answering side hands the offer on before it asks for an answer, and the
/// connection is closed no more than once.
pub open spec fn keeps_the_order(role: Role, events: Seq<EventView>, i: int) -> bool {
    &&& action_at(role, events, i) is ReadLocalDescription || announces(role, events, i)
        ==> exists|j: int| 0 <= j <= i && (#[trigger] events[j]) is GatheringComplete
    &&& role == Role::Offer && action_at(role, events, i) is ReadLine ==> exists|j: int|
        0 <= j < i && announces(role, events, j)
    &&& role == Role::Answer && action_at(role, events, i) is CreateLocalDescription
        ==> exists|j: int| 0 <= j < i && hands_on(role, events, j)
    &&& action_at(role, events, i) is Close ==> forall|j: int|
        0 <= j < i ==> !(#[trigger] action_at(role, events, j) is Close)
}

/// Every step of every run keeps the order.
pub proof fn lemma_keeps_the_order(role: Role, events: Seq<EventView>, i: int)
    requires
        0 <= i < events.len(),
    ensures
        keeps_the_order(role, events, i),
{
    if action_at(role, events, i) is ReadLocalDescription || announces(role, events, i) {
        lemma_local_descriptor_waits_for_gathering(role, events, i);
    }
    if role == Role::Offer && action_at(role, events, i) is ReadLine {
        lemma_offer_announces_before_it_reads(events, i);
    }
    if role == Role::Answer && action_at(role, events, i) is CreateLocalDescription {
        lemma_answer_applies_the_offer_first(events, i);
    }
    if action_at(role, events, i) is Close {
        assert forall|j: int| 0 <= j < i implies !(#[trigger] action_at(role, events, j)
            is Close) by {
            if action_at(role, events, j) is Close {
                lemma_closes_at_most_once(role, events, j, i);
            }
        }
    }
}

/// The wait is left at most once: however often the completion signal or an
/// interrupt comes, a run asks to close the connection no more than once.
pub proof fn lemma_closes_at_most_once(role: Role, events: Seq<EventView>, i: int, j: int)
    requires
        0 <= i < j < events.len(),
        action_at(role, events, i) is Close,
    ensures
        !(action_at(role, events, j) is Close),
{
    if action_at(role, events, j) is Close {
        lemma_requests_in_order(role, events, i, j);
    }
}

/// One descriptor is made locally in a run, and no more: the machine asks
/// the transport to make the local descriptor at most once.
pub proof fn lemma_one_local_descriptor(role: Role, events: Seq<EventView>, i: int, j: int)
    requires
        0 <= i < j < events.len(),
        action_at(role, events, i) is CreateLocalDescription,
    ensures
        !(action_at(role, events, j) is CreateLocalDescription),
{
    if action_at(role, events, j) is CreateLocalDescription {
        lemma_requests_in_order(role, events, i, j);
    }
}

/// One descriptor is taken from the peer in a run, and no more: the machine
/// asks to give the transport the peer's descriptor at most once.
pub proof fn lemma_one_remote_descriptor(role: Role, events: Seq<EventView>, i: int, j: int)
    requires
        0 <= i < j < events.len(),
        action_at(role, events, i) is SetRemoteDescription,
    ensures
        !(action_at(role, events, j) is SetRemoteDescription),
{
    if action_at(role, events, j) is SetRemoteDescription {
        lemma_requests_in_order(role, events, i, j);
    }
}

/// What ends the process ends the run: after the machine has asked to end
/// the process, in good order or on a fatal error, it asks for nothing more.
pub proof fn lemma_nothing_after_the_end(role: Role, events: Seq<EventView>, i: int, j: int)
    requires
        0 <= i < j < events.len(),
        action_at(role, events, i) is Abort || action_at(role, events, i) is Finish,
    ensures
        action_at(role, events, j) is Ignore,
{
    lemma_phase_step(role, events, i);
    lemma_never_back(role, events, i + 1, j);
}

/// A line that is refused on the answering side ends the run with nothing
/// announced: where that side gives up on the line it was given, no step of
/// the run, before or after, announces a descriptor.
pub proof fn lemma_refused_offer_announces_nothing(events: Seq<EventView>, i: int, k: int)
    requires
        0 <= i < events.len(),
        0 <= k < events.len(),
        events[i] is Remote || events[i] is InputFailed,
        action_at(Role::Answer, events, i) is Abort,
    ensures
        !(action_at(Role::Answer, events, k) is Announce),
{
    if k < i {
        lemma_phase_step(Role::Answer, events, k);
        lemma_never_back(Role::Answer, events, k + 1, i);
    } else if k > i {
        lemma_nothing_after_the_end(Role::Answer, events, i, k);
    }
}

/// A line that is refused on the offering side ends the run: where that side
/// gives up on the line it was given, it announces nothing from then on.
pub proof fn lemma_refused_answer_announces_nothing_more(
    events: Seq<EventView>,
    i: int,
    k: int,
)
    requires
        0 <= i <= k < events.len(),
        events[i] is Remote || events[i] is InputFailed,
        action_at(Role::Offer, events, i) is Abort,
    ensures
        !(action_at(Role::Offer, events, k) is Announce),
{
    if k > i {
        lemma_nothing_after_the_end(Role::Offer, events, i, k);
    }
}

} // verus!
