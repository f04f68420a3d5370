//! Phase controller and proposal store: creation, support and promotion,
//! consent voting, spam marking, and lazy resolution with at-most-once bond
//! disposal.
//!
//! Records are held arena-style, indexed by id: the pre-vote and the active
//! partition are the sub-sets of records in the corresponding phase, so a
//! promotion moves a record between partitions by advancing its phase while
//! its id never changes. Each operation is all-or-nothing: on every error
//! path the whole state is returned unchanged.

use vstd::prelude::*;

use crate::errors::ProposalError;
use crate::policy::{consent_valid, Consent, ConsentKind};
use crate::proposal::{
    has_consent_key, is_terminal, phase_le, proposal_wf, spec_status, Phase, Proposal, Status,
    Vote,
};

verus! {

/// The accounts the engine is configured with: the credential registry it
/// trusts, the community treasury that forfeited bonds go to, and the admin
/// allowed to mark spam.
#[derive(Clone, Copy, PartialEq, Eq, Structural, Debug)]
pub struct Accounts {
    pub iah_registry: u64,
    pub community_treasury: u64,
    pub admin: u64,
}

/// A bond disposal decision: the engine decides the amount and the recipient;
/// the host performs the transfer.
#[derive(Clone, Copy, PartialEq, Eq, Structural, Debug)]
pub struct BondDisposal {
    pub amount: u128,
    pub recipient: u64,
}

/// The proposal registry and its configuration. Ids are assigned from the
/// strictly increasing `prop_counter`, starting at 1, and are never reused:
/// the record of id `i` sits at index `i - 1` of `records`.
#[derive(Clone, Debug)]
pub struct Contract {
    pub prop_counter: u32,
    pub records: Vec<Proposal>,
    pub pre_vote_bond: u128,
    pub active_queue_bond: u128,
    pub pre_vote_support: u32,
    pub simple_consent: Consent,
    pub super_consent: Consent,
    pub pre_vote_duration: u64,
    pub voting_duration: u64,
    pub eligible_population: u32,
    pub accounts: Accounts,
}

/// The configuration surface is identical in `a` and `b`: no operation but
/// deployment ever changes it.
pub open spec fn config_eq(a: Contract, b: Contract) -> bool {
    &&& b.pre_vote_bond == a.pre_vote_bond
    &&& b.active_queue_bond == a.active_queue_bond
    &&& b.pre_vote_support == a.pre_vote_support
    &&& b.simple_consent == a.simple_consent
    &&& b.super_consent == a.super_consent
    &&& b.pre_vote_duration == a.pre_vote_duration
    &&& b.voting_duration == a.voting_duration
    &&& b.eligible_population == a.eligible_population
    &&& b.accounts == a.accounts
}

/// All records but the one of `id` are untouched, and none was added or
/// removed.
pub open spec fn others_unchanged(pre: Contract, post: Contract, id: u32) -> bool {
    &&& post.records@.len() == pre.records@.len()
    &&& forall|j: int|
        0 <= j < pre.records@.len() && j != id - 1 ==> post.records@[j] == pre.records@[j]
}

/// Fields of a record that no operation after creation ever changes.
pub open spec fn identity_unchanged(p: Proposal, q: Proposal) -> bool {
    &&& q.proposer == p.proposer
    &&& q.kind == p.kind
    &&& q.created_at == p.created_at
    &&& q.bond_amount == p.bond_amount
}

impl Contract {
    /// Well-formedness: the arena is exactly as long as the counter, the two
    /// consent tiers are valid percentages, the support threshold is
    /// positive, and every record satisfies its structural invariant.
    pub open spec fn wf(self) -> bool {
        &&& self.records@.len() == self.prop_counter
        &&& consent_valid(self.simple_consent)
        &&& consent_valid(self.super_consent)
        &&& self.pre_vote_support >= 1
        &&& forall|j: int|
            0 <= j < self.records@.len() ==> proposal_wf(
                #[trigger] self.records@[j],
                self.pre_vote_support,
            )
    }

    /// `id` names an assigned proposal.
    pub open spec fn has_id(self, id: u32) -> bool {
        1 <= id && id <= self.prop_counter
    }

    /// The stored record of an assigned id.
    pub open spec fn rec(self, id: u32) -> Proposal {
        self.records@[id - 1]
    }

    /// The derived status of an assigned id at time `now`: a pure function of
    /// the stored state and the clock, never of the status cache.
    pub open spec fn status_at(self, id: u32, now: u64) -> Status {
        spec_status(
            self.rec(id),
            now,
            self.eligible_population,
            self.simple_consent,
            self.super_consent,
        )
    }
}

/// What `create` does, as a relation between the state before, the state
/// after, the call's arguments and its result.
pub open spec fn create_step(
    pre: Contract,
    post: Contract,
    proposer: u64,
    bond: u128,
    kind: ConsentKind,
    now: u64,
    proposer_verified: bool,
    r: Result<u32, ProposalError>,
) -> bool {
    if !proposer_verified {
        r == Err::<u32, ProposalError>(ProposalError::NotEligible) && post == pre
    } else if bond < pre.pre_vote_bond {
        r == Err::<u32, ProposalError>(ProposalError::InsufficientBond) && post == pre
    } else {
        &&& r == Ok::<u32, ProposalError>((pre.prop_counter + 1) as u32)
        &&& post.prop_counter == pre.prop_counter + 1
        &&& config_eq(pre, post)
        &&& post.records@.len() == pre.records@.len() + 1
        &&& forall|j: int|
            0 <= j < pre.records@.len() ==> post.records@[j] == pre.records@[j]
        &&& {
            let p = post.records@.last();
            &&& p.proposer == proposer
            &&& p.phase == Phase::PreVote
            &&& p.status == Status::InProgress
            &&& p.kind == kind
            &&& p.created_at == now
            &&& p.phase_deadline == now + pre.pre_vote_duration
            &&& p.bond_amount == bond
            &&& !p.bond_disposed
            &&& !p.is_spam
            &&& p.support_votes@.len() == 0
            &&& p.consent_votes@.len() == 0
        }
    }
}

/// What `support` does. A successful call that brings the support count up
/// to the threshold promotes the record in the same call: the result then
/// carries `true`, the record moves to the active phase with a fresh
/// deadline, and the support set is discarded.
pub open spec fn support_step(
    pre: Contract,
    post: Contract,
    voter: u64,
    id: u32,
    now: u64,
    voter_verified: bool,
    r: Result<bool, ProposalError>,
) -> bool {
    if !voter_verified {
        r == Err::<bool, ProposalError>(ProposalError::NotEligible) && post == pre
    } else if !(pre.has_id(id) && pre.rec(id).phase == Phase::PreVote) {
        r == Err::<bool, ProposalError>(ProposalError::NotFound) && post == pre
    } else if pre.rec(id).support_votes@.contains(voter) {
        r == Err::<bool, ProposalError>(ProposalError::AlreadySupported) && post == pre
    } else if pre.status_at(id, now) != Status::InProgress {
        r == Err::<bool, ProposalError>(ProposalError::PhaseClosed) && post == pre
    } else {
        &&& config_eq(pre, post)
        &&& post.prop_counter == pre.prop_counter
        &&& others_unchanged(pre, post, id)
        &&& {
            let p = pre.rec(id);
            let q = post.rec(id);
            let promoted = p.support_votes@.len() + 1 == pre.pre_vote_support;
            &&& r == Ok::<bool, ProposalError>(promoted)
            &&& identity_unchanged(p, q)
            &&& q.bond_disposed == p.bond_disposed
            &&& q.is_spam == p.is_spam
            &&& if promoted {
                &&& q.phase == Phase::Active
                &&& q.status == Status::InProgress
                &&& q.phase_deadline == now + pre.voting_duration
                &&& q.support_votes@.len() == 0
                &&& q.consent_votes@.len() == 0
            } else {
                &&& q.phase == Phase::PreVote
                &&& q.status == p.status
                &&& q.phase_deadline == p.phase_deadline
                &&& q.support_votes@ == p.support_votes@.push(voter)
                &&& q.consent_votes@ == p.consent_votes@
            }
        }
    }
}

/// What `cast_consent` does: records one final, non-revocable vote value for
/// a voter on an active proposal whose derived status is still in progress.
/// Tallying stops at the deadline or at early consent-threshold
/// satisfaction, whichever comes first: a record that already derives a
/// terminal status is no longer mutable, so a decided outcome can never be
/// diluted away by later votes.
pub open spec fn cast_step(
    pre: Contract,
    post: Contract,
    voter: u64,
    id: u32,
    vote: Vote,
    now: u64,
    voter_verified: bool,
    r: Result<(), ProposalError>,
) -> bool {
    if !voter_verified {
        r == Err::<(), ProposalError>(ProposalError::NotEligible) && post == pre
    } else if !(pre.has_id(id) && pre.rec(id).phase == Phase::Active) {
        r == Err::<(), ProposalError>(ProposalError::NotFound) && post == pre
    } else if has_consent_key(pre.rec(id).consent_votes@, voter) {
        r == Err::<(), ProposalError>(ProposalError::AlreadyVoted) && post == pre
    } else if pre.status_at(id, now) != Status::InProgress {
        r == Err::<(), ProposalError>(ProposalError::PhaseClosed) && post == pre
    } else {
        &&& r == Ok::<(), ProposalError>(())
        &&& config_eq(pre, post)
        &&& post.prop_counter == pre.prop_counter
        &&& others_unchanged(pre, post, id)
        &&& {
            let p = pre.rec(id);
            let q = post.rec(id);
            &&& identity_unchanged(p, q)
            &&& q.phase == p.phase
            &&& q.status == p.status
            &&& q.phase_deadline == p.phase_deadline
            &&& q.bond_disposed == p.bond_disposed
            &&& q.is_spam == p.is_spam
            &&& q.support_votes@ == p.support_votes@
            &&& q.consent_votes@ == p.consent_votes@.push((voter, vote))
        }
    }
}

/// What `mark_spam` does: sets the spam flag (idempotently) and forfeits the
/// bond to the community treasury if it was not disposed yet.
pub open spec fn mark_spam_step(
    pre: Contract,
    post: Contract,
    marker: u64,
    id: u32,
    r: Result<Option<BondDisposal>, ProposalError>,
) -> bool {
    if marker != pre.accounts.admin {
        r == Err::<Option<BondDisposal>, ProposalError>(ProposalError::Unauthorized) && post == pre
    } else if !pre.has_id(id) {
        r == Err::<Option<BondDisposal>, ProposalError>(ProposalError::NotFound) && post == pre
    } else if pre.rec(id).is_spam {
        r == Ok::<Option<BondDisposal>, ProposalError>(None) && post == pre
    } else {
        &&& config_eq(pre, post)
        &&& post.prop_counter == pre.prop_counter
        &&& others_unchanged(pre, post, id)
        &&& {
            let p = pre.rec(id);
            let q = post.rec(id);
            &&& identity_unchanged(p, q)
            &&& q.phase == p.phase
            &&& q.status == Status::Spam
            &&& q.phase_deadline == p.phase_deadline
            &&& q.is_spam
            &&& q.support_votes@ == p.support_votes@
            &&& q.consent_votes@ == p.consent_votes@
            &&& q.bond_disposed
            &&& if p.bond_disposed {
                r == Ok::<Option<BondDisposal>, ProposalError>(None)
            } else {
                r == Ok::<Option<BondDisposal>, ProposalError>(
                    Some(
                        BondDisposal {
                            amount: p.bond_amount,
                            recipient: pre.accounts.community_treasury,
                        },
                    ),
                )
            }
        }
    }
}

/// What `resolve` does: refreshes the status cache from the derived status
/// and, exactly when the status is terminal and the bond was never disposed,
/// emits the one disposal — to the treasury on spam, to the proposer
/// otherwise. Tallies, phase and flags are never touched.
pub open spec fn resolve_step(
    pre: Contract,
    post: Contract,
    id: u32,
    now: u64,
    r: Result<(Status, Option<BondDisposal>), ProposalError>,
) -> bool {
    if !pre.has_id(id) {
        r == Err::<(Status, Option<BondDisposal>), ProposalError>(ProposalError::NotFound) && post
            == pre
    } else {
        &&& config_eq(pre, post)
        &&& post.prop_counter == pre.prop_counter
        &&& others_unchanged(pre, post, id)
        &&& {
            let st = pre.status_at(id, now);
            let p = pre.rec(id);
            let q = post.rec(id);
            &&& identity_unchanged(p, q)
            &&& q.phase == p.phase
            &&& q.status == st
            &&& q.phase_deadline == p.phase_deadline
            &&& q.is_spam == p.is_spam
            &&& q.support_votes@ == p.support_votes@
            &&& q.consent_votes@ == p.consent_votes@
            &&& if is_terminal(st) && !p.bond_disposed {
                &&& q.bond_disposed
                &&& r == Ok::<(Status, Option<BondDisposal>), ProposalError>(
                    (
                        st,
                        Some(
                            BondDisposal {
                                amount: p.bond_amount,
                                recipient: if st == Status::Spam {
                                    pre.accounts.community_treasury
                                } else {
                                    p.proposer
                                },
                            },
                        ),
                    ),
                )
            } else {
                &&& q.bond_disposed == p.bond_disposed
                &&& r == Ok::<(Status, Option<BondDisposal>), ProposalError>((st, None))
            }
        }
    }
}

/// What `expire_pre_vote` does: a `resolve` restricted to pre-vote records.
pub open spec fn expire_step(
    pre: Contract,
    post: Contract,
    id: u32,
    now: u64,
    r: Result<(Status, Option<BondDisposal>), ProposalError>,
) -> bool {
    if !(pre.has_id(id) && pre.rec(id).phase == Phase::PreVote) {
        r == Err::<(Status, Option<BondDisposal>), ProposalError>(ProposalError::NotFound) && post
            == pre
    } else {
        resolve_step(pre, post, id, now, r)
    }
}

impl Contract {
    /// Deploy a fresh, empty registry with the given configuration.
    pub fn new(
        pre_vote_bond: u128,
        active_queue_bond: u128,
        pre_vote_support: u32,
        simple_consent: Consent,
        super_consent: Consent,
        pre_vote_duration: u64,
        voting_duration: u64,
        eligible_population: u32,
        accounts: Accounts,
    ) -> (c: Contract)
        requires
            consent_valid(simple_consent),
            consent_valid(super_consent),
            pre_vote_support >= 1,
        ensures
            c.wf(),
            c.prop_counter == 0,
            c.records@.len() == 0,
            c.pre_vote_bond == pre_vote_bond,
            c.active_queue_bond == active_queue_bond,
            c.pre_vote_support == pre_vote_support,
            c.simple_consent == simple_consent,
            c.super_consent == super_consent,
            c.pre_vote_duration == pre_vote_duration,
            c.voting_duration == voting_duration,
            c.eligible_population == eligible_population,
            c.accounts == accounts,
    {
        Contract {
            prop_counter: 0,
            records: Vec::new(),
            pre_vote_bond: pre_vote_bond,
            active_queue_bond: active_queue_bond,
            pre_vote_support: pre_vote_support,
            simple_consent: simple_consent,
            super_consent: super_consent,
            pre_vote_duration: pre_vote_duration,
            voting_duration: voting_duration,
            eligible_population: eligible_population,
            accounts: accounts,
        }
    }

    /// Create a proposal against a bond. `proposer_verified` is the
    /// credential oracle's answer for the proposer, obtained by the host.
    /// Returns the newly assigned id.
    pub fn create(
        &mut self,
        proposer: u64,
        bond: u128,
        kind: ConsentKind,
        now: u64,
        proposer_verified: bool,
    ) -> (r: Result<u32, ProposalError>)
        requires
            old(self).wf(),
            old(self).prop_counter < u32::MAX,
            now + old(self).pre_vote_duration <= u64::MAX,
        ensures
            final(self).wf(),
            create_step(*old(self), *final(self), proposer, bond, kind, now, proposer_verified, r),
            forall|j: int|
                0 <= j < old(self).records@.len() ==> phase_le(
                    old(self).records@[j].phase,
                    (#[trigger] final(self).records@[j]).phase,
                ),
    {
        if !proposer_verified {
            return Err(ProposalError::NotEligible);
        }
        if bond < self.pre_vote_bond {
            return Err(ProposalError::InsufficientBond);
        }
        let id = self.prop_counter + 1;
        self.prop_counter = id;
        let p = Proposal {
            proposer: proposer,
            phase: Phase::PreVote,
            status: Status::InProgress,
            kind: kind,
            created_at: now,
            phase_deadline: now + self.pre_vote_duration,
            bond_amount: bond,
            bond_disposed: false,
            is_spam: false,
            support_votes: Vec::new(),
            consent_votes: Vec::new(),
        };
        self.records.push(p);
        Ok(id)
    }

    /// Record one distinct supporter for a pre-vote proposal; promote it to
    /// the active phase in the same call when the threshold is reached before
    /// the deadline. `voter_verified` is the credential oracle's answer.
    pub fn support(&mut self, voter: u64, id: u32, now: u64, voter_verified: bool) -> (r: Result<
        bool,
        ProposalError,
    >)
        requires
            old(self).wf(),
            now + old(self).voting_duration <= u64::MAX,
        ensures
            final(self).wf(),
            support_step(*old(self), *final(self), voter, id, now, voter_verified, r),
            forall|j: int|
                0 <= j < old(self).records@.len() ==> phase_le(
                    old(self).records@[j].phase,
                    (#[trigger] final(self).records@[j]).phase,
                ),
    {
        if !voter_verified {
            return Err(ProposalError::NotEligible);
        }
        if id < 1 || id > self.prop_counter {
            return Err(ProposalError::NotFound);
        }
        let i = (id - 1) as usize;
        let rec = &self.records[i];
        if !matches!(rec.phase, Phase::PreVote) {
            return Err(ProposalError::NotFound);
        }
        if rec.contains_supporter(voter) {
            return Err(ProposalError::AlreadySupported);
        }
        let st = rec.current_status(
            now,
            self.eligible_population,
            &self.simple_consent,
            &self.super_consent,
        );
        if !matches!(st, Status::InProgress) {
            return Err(ProposalError::PhaseClosed);
        }
        let threshold = self.pre_vote_support;
        let voting_duration = self.voting_duration;
        let p = &mut self.records[i];
        let cur = p.support_votes.len();
        if cur + 1 == threshold as usize {
            p.phase = Phase::Active;
            p.status = Status::InProgress;
            p.phase_deadline = now + voting_duration;
            p.support_votes.clear();
            Ok(true)
        } else {
            p.support_votes.push(voter);
            Ok(false)
        }
    }

    /// Record one final consent vote on an active, still-undecided
    /// proposal: once the derived status is terminal — the deadline passed,
    /// the thresholds already satisfied, or the record spam-marked — the
    /// call fails with `PhaseClosed` and the tally is frozen.
    /// `voter_verified` is the credential oracle's answer for the voter.
    pub fn cast_consent(
        &mut self,
        voter: u64,
        id: u32,
        vote: Vote,
        now: u64,
        voter_verified: bool,
    ) -> (r: Result<(), ProposalError>)
        requires
            old(self).wf(),
        ensures
            final(self).wf(),
            cast_step(*old(self), *final(self), voter, id, vote, now, voter_verified, r),
            forall|j: int|
                0 <= j < old(self).records@.len() ==> phase_le(
                    old(self).records@[j].phase,
                    (#[trigger] final(self).records@[j]).phase,
                ),
    {
        if !voter_verified {
            return Err(ProposalError::NotEligible);
        }
        if id < 1 || id > self.prop_counter {
            return Err(ProposalError::NotFound);
        }
        let i = (id - 1) as usize;
        let rec = &self.records[i];
        if !matches!(rec.phase, Phase::Active) {
            return Err(ProposalError::NotFound);
        }
        if rec.has_consent_vote(voter) {
            return Err(ProposalError::AlreadyVoted);
        }
        let st = rec.current_status(
            now,
            self.eligible_population,
            &self.simple_consent,
            &self.super_consent,
        );
        if !matches!(st, Status::InProgress) {
            return Err(ProposalError::PhaseClosed);
        }
        let p = &mut self.records[i];
        p.consent_votes.push((voter, vote));
        Ok(())
    }

    /// Mark a proposal as spam. Only the configured admin may; the call is
    /// idempotent, and forfeits the bond to the community treasury if it was
    /// not disposed yet.
    pub fn mark_spam(&mut self, marker: u64, id: u32) -> (r: Result<
        Option<BondDisposal>,
        ProposalError,
    >)
        requires
            old(self).wf(),
        ensures
            final(self).wf(),
            mark_spam_step(*old(self), *final(self), marker, id, r),
            forall|j: int|
                0 <= j < old(self).records@.len() ==> phase_le(
                    old(self).records@[j].phase,
                    (#[trigger] final(self).records@[j]).phase,
                ),
    {
        if marker != self.accounts.admin {
            return Err(ProposalError::Unauthorized);
        }
        if id < 1 || id > self.prop_counter {
            return Err(ProposalError::NotFound);
        }
        let i = (id - 1) as usize;
        if self.records[i].is_spam {
            return Ok(None);
        }
        let treasury = self.accounts.community_treasury;
        let p = &mut self.records[i];
        p.is_spam = true;
        p.status = Status::Spam;
        if !p.bond_disposed {
            p.bond_disposed = true;
            let amount = p.bond_amount;
            Ok(Some(BondDisposal { amount: amount, recipient: treasury }))
        } else {
            Ok(None)
        }
    }

    /// Derive the current status, refresh the cache, and — exactly when the
    /// status is newly terminal and the bond was never disposed — emit the
    /// one disposal decision. Never mutates tallies.
    pub fn resolve(&mut self, id: u32, now: u64) -> (r: Result<
        (Status, Option<BondDisposal>),
        ProposalError,
    >)
        requires
            old(self).wf(),
        ensures
            final(self).wf(),
            resolve_step(*old(self), *final(self), id, now, r),
            forall|j: int|
                0 <= j < old(self).records@.len() ==> phase_le(
                    old(self).records@[j].phase,
                    (#[trigger] final(self).records@[j]).phase,
                ),
    {
        if id < 1 || id > self.prop_counter {
            return Err(ProposalError::NotFound);
        }
        let i = (id - 1) as usize;
        let st = self.records[i].current_status(
            now,
            self.eligible_population,
            &self.simple_consent,
            &self.super_consent,
        );
        let treasury = self.accounts.community_treasury;
        let p = &mut self.records[i];
        p.status = st;
        let terminal = !matches!(st, Status::InProgress);
        if terminal && !p.bond_disposed {
            p.bond_disposed = true;
            let amount = p.bond_amount;
            let recipient = if matches!(st, Status::Spam) {
                treasury
            } else {
                p.proposer
            };
            Ok((st, Some(BondDisposal { amount: amount, recipient: recipient })))
        } else {
            Ok((st, None))
        }
    }

    /// Expire a pre-vote proposal whose deadline has passed: a `resolve`
    /// restricted to the pre-vote partition, callable by anyone. Before the
    /// deadline it reports the status in progress and disposes nothing.
    pub fn expire_pre_vote(&mut self, id: u32, now: u64) -> (r: Result<
        (Status, Option<BondDisposal>),
        ProposalError,
    >)
        requires
            old(self).wf(),
        ensures
            final(self).wf(),
            expire_step(*old(self), *final(self), id, now, r),
            forall|j: int|
                0 <= j < old(self).records@.len() ==> phase_le(
                    old(self).records@[j].phase,
                    (#[trigger] final(self).records@[j]).phase,
                ),
    {
        if id < 1 || id > self.prop_counter {
            return Err(ProposalError::NotFound);
        }
        let i = (id - 1) as usize;
        if !matches!(self.records[i].phase, Phase::PreVote) {
            return Err(ProposalError::NotFound);
        }
        self.resolve(id, now)
    }
}

} // verus!
