//! Proposal records: the phases, the derived status, the tallies, and the
//! pure status function that every read recomputes.

use vstd::prelude::*;

use crate::policy::{evaluate, spec_verdict, Consent, ConsentKind, Verdict};

verus! {

/// Coarse lifecycle stage of a proposal. The only transition is
/// `PreVote -> Active`; there is no reverse transition and no skipping.
#[derive(Clone, Copy, PartialEq, Eq, Structural, Debug)]
pub enum Phase {
    PreVote,
    Active,
}

/// The phase order: `PreVote < Active`. Observed phases are non-decreasing
/// under this order.
pub open spec fn phase_le(a: Phase, b: Phase) -> bool {
    a == b || (a == Phase::PreVote && b == Phase::Active)
}

/// Derived outcome classification of a proposal. Only `InProgress` is
/// non-terminal.
#[derive(Clone, Copy, PartialEq, Eq, Structural, Debug)]
pub enum Status {
    InProgress,
    Approved,
    Rejected,
    Spam,
    Expired,
}

/// A status is terminal when it is anything but `InProgress`. A terminal
/// status triggers the one bond disposal and freezes the tallies.
pub open spec fn is_terminal(s: Status) -> bool {
    s != Status::InProgress
}

/// A consent-phase vote value. A cast vote is final for that voter: there is
/// no revote.
#[derive(Clone, Copy, PartialEq, Eq, Structural, Debug)]
pub enum Vote {
    For,
    Against,
    Abstain,
}

/// One proposal record. `status` is a cache refreshed on reads and writes; it
/// is never trusted as ground truth — `spec_status` is.
#[derive(Clone, Debug, PartialEq)]
pub struct Proposal {
    /// Identity of the creating account.
    pub proposer: u64,
    /// Current lifecycle stage.
    pub phase: Phase,
    /// Cached outcome, possibly stale; recomputed on every read.
    pub status: Status,
    /// Which consent tier decides this proposal, fixed at creation.
    pub kind: ConsentKind,
    /// Creation timestamp.
    pub created_at: u64,
    /// End of the current phase's window.
    pub phase_deadline: u64,
    /// Value locked at creation; disposed exactly once, on the first
    /// terminal-status determination.
    pub bond_amount: u128,
    /// Set when the one bond disposal has been decided.
    pub bond_disposed: bool,
    /// Set by an authorized marker; short-circuits the status to `Spam`.
    pub is_spam: bool,
    /// Distinct voters backing promotion out of pre-vote.
    pub support_votes: Vec<u64>,
    /// Votes collected during the active phase, keyed by distinct voters.
    pub consent_votes: Vec<(u64, Vote)>,
}

/// Number of `For` entries in a consent-vote sequence.
pub open spec fn count_for(s: Seq<(u64, Vote)>) -> nat
    decreases s.len(),
{
    if s.len() == 0 {
        0
    } else {
        count_for(s.drop_last()) + (if s.last().1 == Vote::For {
            1nat
        } else {
            0nat
        })
    }
}

/// Whether `voter` already keys an entry of a consent-vote sequence.
pub open spec fn has_consent_key(s: Seq<(u64, Vote)>, voter: u64) -> bool {
    exists|i: int| 0 <= i < s.len() && s[i].0 == voter
}

/// No voter appears twice in a support sequence.
pub open spec fn supporters_unique(s: Seq<u64>) -> bool {
    forall|i: int, j: int| 0 <= i < j < s.len() ==> s[i] != s[j]
}

/// No voter keys two entries of a consent-vote sequence.
pub open spec fn consent_keys_unique(s: Seq<(u64, Vote)>) -> bool {
    forall|i: int, j: int| 0 <= i < j < s.len() ==> s[i].0 != s[j].0
}

/// Structural invariant of one record, relative to the configured support
/// threshold: tallies hold each voter at most once; a pre-vote record has no
/// consent votes and is strictly below the threshold (reaching it promotes in
/// the same call); an active record has had its support set discarded.
pub open spec fn proposal_wf(p: Proposal, support_threshold: u32) -> bool {
    &&& supporters_unique(p.support_votes@)
    &&& consent_keys_unique(p.consent_votes@)
    &&& (p.phase == Phase::PreVote ==> p.support_votes@.len() < support_threshold
        && p.consent_votes@.len() == 0)
    &&& (p.phase == Phase::Active ==> p.support_votes@.len() == 0)
}

/// Select the consent tier a proposal is decided by.
pub open spec fn consent_of(kind: ConsentKind, simple: Consent, super_tier: Consent) -> Consent {
    if kind == ConsentKind::Simple {
        simple
    } else {
        super_tier
    }
}

/// The status of a record at time `now`: a pure function of the phase, the
/// deadline, the tallies, the spam flag and the eligible population. The spam
/// flag overrides everything; a pre-vote record expires once its deadline has
/// passed; an active record follows the consent verdict of its tier.
pub open spec fn spec_status(
    p: Proposal,
    now: u64,
    eligible: u32,
    simple: Consent,
    super_tier: Consent,
) -> Status {
    if p.is_spam {
        Status::Spam
    } else if p.phase == Phase::PreVote {
        if now > p.phase_deadline {
            Status::Expired
        } else {
            Status::InProgress
        }
    } else {
        match spec_verdict(
            count_for(p.consent_votes@),
            p.consent_votes@.len(),
            eligible as nat,
            consent_of(p.kind, simple, super_tier),
            now > p.phase_deadline,
        ) {
            Verdict::Passed => Status::Approved,
            Verdict::Rejected => Status::Rejected,
            Verdict::Undecided => Status::InProgress,
        }
    }
}

/// `b` carries exactly the same record as `a`, the status cache included.
pub open spec fn record_eq(a: Proposal, b: Proposal) -> bool {
    &&& b.proposer == a.proposer
    &&& b.phase == a.phase
    &&& b.status == a.status
    &&& b.kind == a.kind
    &&& b.created_at == a.created_at
    &&& b.phase_deadline == a.phase_deadline
    &&& b.bond_amount == a.bond_amount
    &&& b.bond_disposed == a.bond_disposed
    &&& b.is_spam == a.is_spam
    &&& b.support_votes@ == a.support_votes@
    &&& b.consent_votes@ == a.consent_votes@
}

/// `out` is `stored` with its status refreshed for time `now`: every field
/// agrees except the status cache, which holds the recomputed value.
pub open spec fn refreshed(
    stored: Proposal,
    out: Proposal,
    now: u64,
    eligible: u32,
    simple: Consent,
    super_tier: Consent,
) -> bool {
    &&& out.status == spec_status(stored, now, eligible, simple, super_tier)
    &&& out.proposer == stored.proposer
    &&& out.phase == stored.phase
    &&& out.kind == stored.kind
    &&& out.created_at == stored.created_at
    &&& out.phase_deadline == stored.phase_deadline
    &&& out.bond_amount == stored.bond_amount
    &&& out.bond_disposed == stored.bond_disposed
    &&& out.is_spam == stored.is_spam
    &&& out.support_votes@ == stored.support_votes@
    &&& out.consent_votes@ == stored.consent_votes@
}

impl Proposal {
    /// Whether `voter` is already counted in the support set.
    pub fn contains_supporter(&self, voter: u64) -> (r: bool)
        ensures
            r == self.support_votes@.contains(voter),
    {
        let n = self.support_votes.len();
        let mut i: usize = 0;
        while i < n
            invariant
                n == self.support_votes@.len(),
                0 <= i <= n,
                forall|j: int| 0 <= j < i ==> self.support_votes@[j] != voter,
            decreases n - i,
        {
            if self.support_votes[i] == voter {
                return true;
            }
            i += 1;
        }
        false
    }

    /// Whether `voter` has already cast a consent vote here.
    pub fn has_consent_vote(&self, voter: u64) -> (r: bool)
        ensures
            r == has_consent_key(self.consent_votes@, voter),
    {
        let n = self.consent_votes.len();
        let mut i: usize = 0;
        while i < n
            invariant
                n == self.consent_votes@.len(),
                0 <= i <= n,
                forall|j: int| 0 <= j < i ==> self.consent_votes@[j].0 != voter,
            decreases n - i,
        {
            if self.consent_votes[i].0 == voter {
                return true;
            }
            i += 1;
        }
        false
    }

    /// Count of `For` votes in the consent tally.
    pub fn count_for_votes(&self) -> (n: usize)
        ensures
            n == count_for(self.consent_votes@),
    {
        let len = self.consent_votes.len();
        let mut n: usize = 0;
        let mut i: usize = 0;
        while i < len
            invariant
                len == self.consent_votes@.len(),
                0 <= i <= len,
                n == count_for(self.consent_votes@.subrange(0, i as int)),
                n <= i,
            decreases len - i,
        {
            proof {
                let pre = self.consent_votes@.subrange(0, i as int);
                let post = self.consent_votes@.subrange(0, i as int + 1);
                assert(post.drop_last() =~= pre);
                assert(post.last() == self.consent_votes@[i as int]);
            }
            if self.consent_votes[i].1 == Vote::For {
                n += 1;
            }
            i += 1;
        }
        proof {
            assert(self.consent_votes@.subrange(0, len as int) =~= self.consent_votes@);
        }
        n
    }

    /// Recompute this record's status at time `now` against the given
    /// configuration, without mutating anything.
    pub fn current_status(
        &self,
        now: u64,
        eligible: u32,
        simple: &Consent,
        super_tier: &Consent,
    ) -> (s: Status)
        ensures
            s == spec_status(*self, now, eligible, *simple, *super_tier),
    {
        if self.is_spam {
            return Status::Spam;
        }
        match self.phase {
            Phase::PreVote => {
                if now > self.phase_deadline {
                    Status::Expired
                } else {
                    Status::InProgress
                }
            },
            Phase::Active => {
                let for_votes = self.count_for_votes();
                let cast = self.consent_votes.len();
                let tier: &Consent = if matches!(self.kind, ConsentKind::Simple) {
                    simple
                } else {
                    super_tier
                };
                match evaluate(for_votes as u64, cast as u64, eligible, tier, now
                    > self.phase_deadline) {
                    Verdict::Passed => Status::Approved,
                    Verdict::Rejected => Status::Rejected,
                    Verdict::Undecided => Status::InProgress,
                }
            },
        }
    }
}

/// An element-for-element copy of a support set.
fn copy_supporters(v: &Vec<u64>) -> (r: Vec<u64>)
    ensures
        r@ == v@,
{
    let n = v.len();
    let mut r: Vec<u64> = Vec::new();
    let mut i: usize = 0;
    while i < n
        invariant
            n == v@.len(),
            0 <= i <= n,
            r@ == v@.subrange(0, i as int),
        decreases n - i,
    {
        r.push(v[i]);
        proof {
            assert(r@ =~= v@.subrange(0, i as int + 1));
        }
        i += 1;
    }
    proof {
        assert(v@.subrange(0, n as int) =~= v@);
    }
    r
}

/// An element-for-element copy of a consent-vote map.
fn copy_consent(v: &Vec<(u64, Vote)>) -> (r: Vec<(u64, Vote)>)
    ensures
        r@ == v@,
{
    let n = v.len();
    let mut r: Vec<(u64, Vote)> = Vec::new();
    let mut i: usize = 0;
    while i < n
        invariant
            n == v@.len(),
            0 <= i <= n,
            r@ == v@.subrange(0, i as int),
        decreases n - i,
    {
        r.push(v[i]);
        proof {
            assert(r@ =~= v@.subrange(0, i as int + 1));
        }
        i += 1;
    }
    proof {
        assert(v@.subrange(0, n as int) =~= v@);
    }
    r
}

impl Proposal {
    /// An exact copy of this record, related to it field by field.
    pub fn duplicate(&self) -> (r: Proposal)
        ensures
            record_eq(*self, r),
    {
        Proposal {
            proposer: self.proposer,
            phase: self.phase,
            status: self.status,
            kind: self.kind,
            created_at: self.created_at,
            phase_deadline: self.phase_deadline,
            bond_amount: self.bond_amount,
            bond_disposed: self.bond_disposed,
            is_spam: self.is_spam,
            support_votes: copy_supporters(&self.support_votes),
            consent_votes: copy_consent(&self.consent_votes),
        }
    }
}

} // verus!
