//! Single-value Paxos without I/O: ballots, the acceptor's promise/accept
//! state machine, and the decisions a proposer takes between the two phases
//! of a round. Every transition carries a contract that Verus proves.

pub mod acceptor;
pub mod ballot;
pub mod history;
pub mod message;
pub mod proposer;
pub mod quorum;
pub mod round;

pub use acceptor::PaxosAcceptorInner;
pub use ballot::BallotID;
pub use message::{
    AcceptReply, AcceptRequest, PaxosProposalStatus, PhaseStatus, Proposal, ProposeReply,
    ProposeRequest, RawProposal, RequestError,
};
pub use proposer::{PaxosProposer, RoundError, RoundStep};
