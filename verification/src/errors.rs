//! Error taxonomies: the engine's own action errors, and the ballot-vote
//! errors kept for callers of the election tooling around it.

use vstd::prelude::*;

verus! {

/// Identifier of a soul-bound credential token.
pub type TokenId = u64;

/// Errors raised when casting or revoking a ballot vote.
#[derive(Clone, Copy, PartialEq, Eq, Structural, Debug)]
pub enum VoteError {
    WrongIssuer,
    NoSBTs,
    DuplicateCandidate,
    DoubleVote(TokenId),
    RevokeNotActive,
    NotVoted,
    DoubleRevoke,
}

/// Typed rejection of a phase-controller or query call. Every operation is
/// all-or-nothing: when one of these is returned, no state was changed.
#[derive(Clone, Copy, PartialEq, Eq, Structural, Debug)]
pub enum ProposalError {
    /// The acting account does not hold the required, unexpired credential.
    NotEligible,
    /// The proposal id is unknown, or the record is not in the phase the
    /// action requires.
    NotFound,
    /// The voter is already counted in the proposal's support set.
    AlreadySupported,
    /// The voter is already a key of the proposal's consent-vote map.
    AlreadyVoted,
    /// The bond attached to the creation call is below the required bond.
    InsufficientBond,
    /// The acting account lacks the admin capability the action requires.
    Unauthorized,
    /// The action came after the relevant deadline, or the proposal has
    /// already reached a terminal status.
    PhaseClosed,
}

} // verus!
