//! The acceptor: what it remembers of one instance, and its two transitions.

use crate::ballot::{ballot_le, ballot_lt, BallotID};
use crate::message::{
    AcceptReply, AcceptRequest, PhaseStatus, Proposal, ProposeReply, ProposeRequest, RequestError,
};
use vstd::prelude::*;

verus! {

/// The mathematical state of an acceptor for one instance.
pub struct AcceptorState {
    /// The greatest ballot promised or accepted so far.
    pub highest_number: BallotID,
    /// The ballot under which `accepted_value` was accepted.
    pub accepted_number: BallotID,
    /// The value accepted last, if any.
    pub accepted_value: Option<u64>,
}

impl AcceptorState {
    /// The state of an acceptor that has seen no request.
    pub open spec fn initial() -> AcceptorState {
        AcceptorState {
            highest_number: BallotID::zero(),
            accepted_number: BallotID::zero(),
            accepted_value: None,
        }
    }

    /// What holds of every state that the transitions reach from
    /// `initial()`: without an accepted value the accepted ballot is still
    /// the least one, and the accepted ballot never exceeds the highest.
    pub open spec fn wf(self) -> bool {
        &&& self.accepted_value is None ==> self.accepted_number == BallotID::zero()
        &&& ballot_le(self.accepted_number, self.highest_number)
    }

    /// Phase one is granted to `ballot`: nothing is accepted yet, or the
    /// ballot lies strictly above every ballot seen.
    pub open spec fn grants(self, ballot: BallotID) -> bool {
        self.accepted_value is None || ballot_lt(self.highest_number, ballot)
    }

    /// Phase two is granted to `ballot`: nothing is accepted yet, or the
    /// ballot is not below the highest ballot seen.
    pub open spec fn admits(self, ballot: BallotID) -> bool {
        self.accepted_value is None || ballot_le(self.highest_number, ballot)
    }

    /// The state after a phase-one request under `ballot`.
    pub open spec fn after_propose(self, ballot: BallotID) -> AcceptorState {
        if self.grants(ballot) {
            AcceptorState { highest_number: ballot, ..self }
        } else {
            self
        }
    }

    /// The answer to a phase-one request under `ballot`.
    pub open spec fn propose_reply(self, ballot: BallotID) -> ProposeReply {
        if self.grants(ballot) {
            ProposeReply {
                status: PhaseStatus::Accept,
                accepted_proposal: Some(
                    Proposal { ballot: self.accepted_number, value: self.accepted_value },
                ),
            }
        } else {
            ProposeReply { status: PhaseStatus::Reject, accepted_proposal: None }
        }
    }

    /// The state after a phase-two request for `value` under `ballot`.
    pub open spec fn after_accept(self, ballot: BallotID, value: u64) -> AcceptorState {
        if self.admits(ballot) {
            AcceptorState {
                highest_number: ballot,
                accepted_number: ballot,
                accepted_value: Some(value),
            }
        } else {
            self
        }
    }

    /// The answer to a phase-two request under `ballot`.
    pub open spec fn accept_reply(self, ballot: BallotID) -> AcceptReply {
        if self.admits(ballot) {
            AcceptReply { status: PhaseStatus::Accept }
        } else {
            AcceptReply { status: PhaseStatus::Reject }
        }
    }
}

/// One request as the state machine sees it.
pub enum AcceptorEvent {
    /// A phase-one request under `ballot`.
    Propose { ballot: BallotID },
    /// A phase-two request for `value` under `ballot`.
    Accept { ballot: BallotID, value: u64 },
}

impl AcceptorEvent {
    /// The ballot that the request came under.
    pub open spec fn ballot(self) -> BallotID {
        match self {
            AcceptorEvent::Propose { ballot } => ballot,
            AcceptorEvent::Accept { ballot, .. } => ballot,
        }
    }
}

impl AcceptorState {
    /// The request is granted in this state.
    pub open spec fn takes(self, event: AcceptorEvent) -> bool {
        match event {
            AcceptorEvent::Propose { ballot } => self.grants(ballot),
            AcceptorEvent::Accept { ballot, .. } => self.admits(ballot),
        }
    }

    /// The state after one request.
    pub open spec fn after(self, event: AcceptorEvent) -> AcceptorState {
        match event {
            AcceptorEvent::Propose { ballot } => self.after_propose(ballot),
            AcceptorEvent::Accept { ballot, value } => self.after_accept(ballot, value),
        }
    }

    /// The state after a run of requests, served in order.
    pub open spec fn after_all(self, events: Seq<AcceptorEvent>) -> AcceptorState
        decreases events.len(),
    {
        if events.len() == 0 {
            self
        } else {
            self.after_all(events.drop_last()).after(events.last())
        }
    }

    /// In a run of requests that starts in this state, the one at `index`
    /// is granted.
    pub open spec fn takes_at(self, events: Seq<AcceptorEvent>, index: int) -> bool {
        self.after_all(events.take(index)).takes(events[index])
    }
}

/// Every request of the run is a phase-two request.
pub open spec fn all_accepts(events: Seq<AcceptorEvent>) -> bool {
    forall|i: int| 0 <= i < events.len() ==> (#[trigger] events[i]) is Accept
}

/// The ballots of the run never fall from one request to a later one.
pub open spec fn ballots_rise(events: Seq<AcceptorEvent>) -> bool {
    forall|i: int, j: int|
        0 <= i <= j < events.len() ==> ballot_le(
            (#[trigger] events[i]).ballot(),
            (#[trigger] events[j]).ballot(),
        )
}

/// An acceptor's memory of one instance. It changes through `on_propose` and
/// `on_accept` only; `&mut self` keeps two transitions from interleaving.
#[derive(Debug)]
pub struct PaxosAcceptorInner {
    accepted_number: BallotID,
    accepted_value: Option<u64>,
    highest_number: BallotID,
}

impl View for PaxosAcceptorInner {
    type V = AcceptorState;

    closed spec fn view(&self) -> AcceptorState {
        AcceptorState {
            highest_number: self.highest_number,
            accepted_number: self.accepted_number,
            accepted_value: self.accepted_value,
        }
    }
}

impl PaxosAcceptorInner {
    #[verifier::type_invariant]
    spec fn reachable(self) -> bool {
        self@.wf()
    }

    /// An acceptor that has seen no request.
    pub fn new() -> (acceptor: Self)
        ensures
            acceptor@ == AcceptorState::initial(),
            acceptor@.wf(),
    {
        PaxosAcceptorInner {
            accepted_number: BallotID::default(),
            accepted_value: None,
            highest_number: BallotID::default(),
        }
    }

    /// Phase one. A granted request raises the promise to the proposal's
    /// ballot and is answered with what was accepted so far; a rejected one
    /// changes nothing. What was accepted is never touched.
    pub fn on_propose(&mut self, proposal: Proposal) -> (reply: ProposeReply)
        ensures
            final(self)@ == old(self)@.after_propose(proposal.ballot),
            reply == old(self)@.propose_reply(proposal.ballot),
            final(self)@.wf(),
    {
        proof {
            use_type_invariant(&*self);
        }
        if self.accepted_value.is_none() || self.highest_number < proposal.ballot {
            self.highest_number = proposal.ballot;
            ProposeReply {
                status: PhaseStatus::Accept,
                accepted_proposal: Some(
                    Proposal { ballot: self.accepted_number, value: self.accepted_value },
                ),
            }
        } else {
            ProposeReply { status: PhaseStatus::Reject, accepted_proposal: None }
        }
    }

    /// Phase two, for a proposal that holds a value. A granted request
    /// stores the value under the proposal's ballot and raises the promise
    /// to it; a rejected one changes nothing.
    pub fn on_accept(&mut self, proposal: Proposal) -> (reply: AcceptReply)
        requires
            proposal.value is Some,
        ensures
            final(self)@ == old(self)@.after_accept(proposal.ballot, proposal.value->0),
            reply == old(self)@.accept_reply(proposal.ballot),
            final(self)@.wf(),
    {
        proof {
            use_type_invariant(&*self);
        }
        if self.accepted_value.is_none() || self.highest_number <= proposal.ballot {
            *self = PaxosAcceptorInner {
                accepted_number: proposal.ballot,
                accepted_value: proposal.value,
                highest_number: proposal.ballot,
            };
            AcceptReply { status: PhaseStatus::Accept }
        } else {
            AcceptReply { status: PhaseStatus::Reject }
        }
    }

    /// Phase one at the boundary: a request that is not well formed fails
    /// with its fault and leaves the state alone; any other is handed to
    /// `on_propose`.
    pub fn handle_propose(
        &mut self,
        request: ProposeRequest,
    ) -> (outcome: Result<ProposeReply, RequestError>)
        ensures
            match request.checked() {
                Ok(proposal) => outcome == Ok::<ProposeReply, RequestError>(
                    old(self)@.propose_reply(proposal.ballot),
                ) && final(self)@ == old(self)@.after_propose(proposal.ballot),
                Err(fault) => outcome == Err::<ProposeReply, RequestError>(fault)
                    && final(self)@ == old(self)@,
            },
            final(self)@.wf(),
    {
        proof {
            use_type_invariant(&*self);
        }
        match request.check() {
            Ok(proposal) => Ok(self.on_propose(proposal)),
            Err(fault) => Err(fault),
        }
    }

    /// Phase two at the boundary: a request that is not well formed, one
    /// without a value among them, fails with its fault and leaves the state
    /// alone; any other is handed to `on_accept`.
    pub fn handle_accept(
        &mut self,
        request: AcceptRequest,
    ) -> (outcome: Result<AcceptReply, RequestError>)
        ensures
            match request.checked() {
                Ok(proposal) => outcome == Ok::<AcceptReply, RequestError>(
                    old(self)@.accept_reply(proposal.ballot),
                ) && final(self)@ == old(self)@.after_accept(proposal.ballot, proposal.value->0),
                Err(fault) => outcome == Err::<AcceptReply, RequestError>(fault)
                    && final(self)@ == old(self)@,
            },
            final(self)@.wf(),
    {
        proof {
            use_type_invariant(&*self);
        }
        match request.check() {
            Ok(proposal) => Ok(self.on_accept(proposal)),
            Err(fault) => Err(fault),
        }
    }

    /// The greatest ballot promised or accepted so far.
    pub fn highest_number(&self) -> (ballot: BallotID)
        ensures
            ballot == self@.highest_number,
    {
        self.highest_number
    }

    /// The ballot under which the accepted value was accepted.
    pub fn accepted_number(&self) -> (ballot: BallotID)
        ensures
            ballot == self@.accepted_number,
    {
        self.accepted_number
    }

    /// The value accepted last, if any.
    pub fn accepted_value(&self) -> (value: Option<u64>)
        ensures
            value == self@.accepted_value,
    {
        self.accepted_value
    }
}

/// The transitions never leave the states that `wf` describes, and the
/// initial state is one of them.
pub proof fn lemma_transitions_keep_wf(state: AcceptorState, events: Seq<AcceptorEvent>)
    requires
        state.wf(),
    ensures
        AcceptorState::initial().wf(),
        state.after_all(events).wf(),
    decreases events.len(),
{
    if events.len() > 0 {
        lemma_transitions_keep_wf(state, events.drop_last());
    }
}

/// A request that is not granted changes nothing, and phase one never
/// touches what was accepted.
pub proof fn lemma_refusal_changes_nothing(state: AcceptorState, event: AcceptorEvent)
    ensures
        !state.takes(event) ==> state.after(event) == state,
        event is Propose ==> state.after(event).accepted_value == state.accepted_value,
        event is Propose ==> state.after(event).accepted_number == state.accepted_number,
{
}

/// No regression: once a value is accepted there is always one, the highest
/// ballot never falls, and the accepted value changes only to the value of a
/// phase-two request whose ballot is not below the highest ballot of that
/// moment.
pub proof fn lemma_no_regression(state: AcceptorState, event: AcceptorEvent)
    requires
        state.accepted_value is Some,
    ensures
        state.after(event).accepted_value is Some,
        ballot_le(state.highest_number, state.after(event).highest_number),
        state.after(event).accepted_value != state.accepted_value ==> {
            &&& event is Accept
            &&& ballot_le(state.highest_number, event.ballot())
            &&& state.after(event).accepted_value == Some(event->value)
        },
{
}

/// No regression over a run of requests: once a value is accepted there is
/// always one, and the highest ballot never falls.
pub proof fn lemma_highest_never_falls(state: AcceptorState, events: Seq<AcceptorEvent>)
    requires
        state.accepted_value is Some,
    ensures
        state.after_all(events).accepted_value is Some,
        ballot_le(state.highest_number, state.after_all(events).highest_number),
    decreases events.len(),
{
    if events.len() > 0 {
        lemma_highest_never_falls(state, events.drop_last());
        lemma_no_regression(state.after_all(events.drop_last()), events.last());
    }
}

/// A phase-two request that comes under a ballot strictly below the highest
/// one, when a value is accepted already, is rejected and alters neither the
/// accepted value nor its ballot.
pub proof fn lemma_stale_accept_is_rejected(state: AcceptorState, ballot: BallotID, value: u64)
    requires
        state.accepted_value is Some,
        ballot_lt(ballot, state.highest_number),
    ensures
        state.accept_reply(ballot).status == PhaseStatus::Reject,
        state.after_accept(ballot, value) == state,
{
}

/// Promise integrity. In a state that holds an accepted value, once phase
/// one is granted to `ballot`, every later request of either phase under a
/// ballot strictly below it is rejected, whatever requests came in between.
pub proof fn lemma_promise_is_kept(
    state: AcceptorState,
    ballot: BallotID,
    between: Seq<AcceptorEvent>,
    later: BallotID,
)
    requires
        state.accepted_value is Some,
        state.grants(ballot),
        ballot_lt(later, ballot),
    ensures
        state.propose_reply(ballot).status == PhaseStatus::Accept,
        state.after_propose(ballot).after_all(between).propose_reply(later).status
            == PhaseStatus::Reject,
        state.after_propose(ballot).after_all(between).accept_reply(later).status
            == PhaseStatus::Reject,
{
    lemma_highest_never_falls(state.after_propose(ballot), between);
}

/// A run in which no request is granted leaves the state as it was.
pub proof fn lemma_refused_run_changes_nothing(state: AcceptorState, events: Seq<AcceptorEvent>)
    requires
        forall|j: int| 0 <= j < events.len() ==> !state.takes_at(events, j),
    ensures
        state.after_all(events) == state,
    decreases events.len(),
{
    if events.len() > 0 {
        let front = events.drop_last();
        assert forall|j: int| 0 <= j < front.len() implies !state.takes_at(front, j) by {
            assert(front.take(j) == events.take(j));
            assert(!state.takes_at(events, j));
        }
        lemma_refused_run_changes_nothing(state, front);
        assert(!state.takes_at(events, events.len() - 1));
    }
}

/// After any run of phase-two requests the accepted value is the value of
/// the last request that was granted, held under that request's ballot.
pub proof fn lemma_last_granted_accept_stands(
    state: AcceptorState,
    events: Seq<AcceptorEvent>,
    last_granted: int,
)
    requires
        all_accepts(events),
        0 <= last_granted < events.len(),
        state.takes_at(events, last_granted),
        forall|j: int| last_granted < j < events.len() ==> !state.takes_at(events, j),
    ensures
        state.after_all(events).accepted_value == Some(events[last_granted]->value),
        state.after_all(events).accepted_number == events[last_granted].ballot(),
        state.after_all(events).highest_number == events[last_granted].ballot(),
    decreases events.len(),
{
    let front = events.drop_last();
    if last_granted < events.len() - 1 {
        assert(front.take(last_granted) == events.take(last_granted));
        assert forall|j: int| last_granted < j < front.len() implies !state.takes_at(front, j) by {
            assert(front.take(j) == events.take(j));
            assert(!state.takes_at(events, j));
        }
        lemma_last_granted_accept_stands(state, front, last_granted);
        assert(!state.takes_at(events, events.len() - 1));
    }
}

/// A run of phase-two requests whose ballots never fall ends with the last
/// request's value accepted under its ballot, provided that this ballot is
/// not below what the acceptor had promised; if it is, every request of the
/// run is rejected and the state stays as it was.
pub proof fn lemma_rising_accepts(state: AcceptorState, events: Seq<AcceptorEvent>)
    requires
        events.len() > 0,
        all_accepts(events),
        ballots_rise(events),
    ensures
        state.admits(events.last().ballot()) ==> {
            &&& state.after_all(events).accepted_value == Some(events.last()->value)
            &&& state.after_all(events).accepted_number == events.last().ballot()
            &&& state.after_all(events).highest_number == events.last().ballot()
        },
        !state.admits(events.last().ballot()) ==> state.after_all(events) == state,
    decreases events.len(),
{
    let front = events.drop_last();
    if front.len() == 0 {
        assert(state.after_all(front) == state);
    } else {
        assert(ballots_rise(front));
        lemma_rising_accepts(state, front);
        assert(ballot_le(front.last().ballot(), events.last().ballot()));
    }
}

} // verus!
