use voting_body::ctrl::{Accounts, Contract};
use voting_body::errors::ProposalError;
use voting_body::policy::{Consent, ConsentKind};
use voting_body::proposal::{Phase, Status, Vote};

const ADMIN: u64 = 1;
const TREASURY: u64 = 2;
const PROPOSER: u64 = 100;

fn accounts() -> Accounts {
    Accounts { iah_registry: 3, community_treasury: TREASURY, admin: ADMIN }
}

/// A registry with bond 10, the given support threshold, pre-vote window of
/// 100 time units, voting window of 200, simple consent {quorum 20%,
/// threshold 50%}, super consent {quorum 30%, threshold 60%}, 10 eligible
/// voters.
fn setup(support_threshold: u32) -> Contract {
    Contract::new(
        10,
        50,
        support_threshold,
        Consent { quorum: 20, threshold: 50 },
        Consent { quorum: 30, threshold: 60 },
        100,
        200,
        10,
        accounts(),
    )
}

/// Create one proposal at time `now` and promote it with a single support.
fn active_proposal(c: &mut Contract, now: u64) -> u32 {
    let id = c.create(PROPOSER, 10, ConsentKind::Simple, now, true).unwrap();
    assert_eq!(c.support(201, id, now, true), Ok(true));
    id
}

/// Like `setup(1)`, but with the given simple-consent quorum percentage.
fn setup_with_quorum(quorum: u32) -> Contract {
    Contract::new(
        10,
        50,
        1,
        Consent { quorum, threshold: 50 },
        Consent { quorum: 30, threshold: 60 },
        100,
        200,
        10,
        accounts(),
    )
}

#[test]
fn create_assigns_increasing_ids() {
    let mut c = setup(3);
    assert_eq!(c.create(PROPOSER, 10, ConsentKind::Simple, 0, true), Ok(1));
    assert_eq!(c.create(PROPOSER, 10, ConsentKind::Super, 0, true), Ok(2));
    assert_eq!(c.number_of_proposals(), 2);
}

#[test]
fn create_rejects_unverified_proposer() {
    let mut c = setup(3);
    assert_eq!(
        c.create(PROPOSER, 10, ConsentKind::Simple, 0, false),
        Err(ProposalError::NotEligible)
    );
    assert_eq!(c.number_of_proposals(), 0);
}

#[test]
fn create_rejects_insufficient_bond() {
    let mut c = setup(3);
    assert_eq!(
        c.create(PROPOSER, 9, ConsentKind::Simple, 0, true),
        Err(ProposalError::InsufficientBond)
    );
    assert_eq!(c.number_of_proposals(), 0);
}

#[test]
fn third_support_promotes_atomically() {
    // Three voters support before the pre-vote window elapses, with a
    // threshold of 3: the third call promotes; a fourth finds the proposal
    // no longer in pre-vote.
    let mut c = setup(3);
    let id = c.create(PROPOSER, 10, ConsentKind::Simple, 0, true).unwrap();
    assert_eq!(c.support(201, id, 10, true), Ok(false));
    assert_eq!(c.support(202, id, 20, true), Ok(false));
    let before = c.get_proposal(id, 20).unwrap();
    assert_eq!(before.proposal.phase, Phase::PreVote);
    assert_eq!(c.support(203, id, 50, true), Ok(true));
    let after = c.get_proposal(id, 50).unwrap();
    assert_eq!(after.proposal.phase, Phase::Active);
    assert_eq!(after.proposal.phase_deadline, 250);
    assert!(after.proposal.support_votes.is_empty());
    assert_eq!(c.support(204, id, 60, true), Err(ProposalError::NotFound));
}

#[test]
fn double_support_fails_and_changes_nothing() {
    let mut c = setup(3);
    let id = c.create(PROPOSER, 10, ConsentKind::Simple, 0, true).unwrap();
    assert_eq!(c.support(201, id, 10, true), Ok(false));
    assert_eq!(c.support(201, id, 20, true), Err(ProposalError::AlreadySupported));
    let p = c.get_proposal(id, 20).unwrap();
    assert_eq!(p.proposal.support_votes, vec![201]);
}

#[test]
fn support_rejects_unverified_voter() {
    let mut c = setup(3);
    let id = c.create(PROPOSER, 10, ConsentKind::Simple, 0, true).unwrap();
    assert_eq!(c.support(201, id, 10, false), Err(ProposalError::NotEligible));
}

#[test]
fn support_unknown_id_fails() {
    let mut c = setup(3);
    assert_eq!(c.support(201, 7, 10, true), Err(ProposalError::NotFound));
}

#[test]
fn support_after_deadline_fails_phase_closed() {
    let mut c = setup(3);
    let id = c.create(PROPOSER, 10, ConsentKind::Simple, 0, true).unwrap();
    assert_eq!(c.support(201, id, 101, true), Err(ProposalError::PhaseClosed));
}

#[test]
fn expired_pre_vote_refunds_proposer_once() {
    let mut c = setup(3);
    let id = c.create(PROPOSER, 10, ConsentKind::Simple, 0, true).unwrap();
    assert_eq!(c.get_proposal(id, 101).unwrap().proposal.status, Status::Expired);
    let (st, disposal) = c.expire_pre_vote(id, 101).unwrap();
    assert_eq!(st, Status::Expired);
    let d = disposal.unwrap();
    assert_eq!(d.amount, 10);
    assert_eq!(d.recipient, PROPOSER);
    // A repeated resolution never disposes a second time.
    assert_eq!(c.expire_pre_vote(id, 102).unwrap(), (Status::Expired, None));
    assert_eq!(c.resolve(id, 103).unwrap(), (Status::Expired, None));
}

#[test]
fn expire_before_deadline_disposes_nothing() {
    let mut c = setup(3);
    let id = c.create(PROPOSER, 10, ConsentKind::Simple, 0, true).unwrap();
    assert_eq!(c.expire_pre_vote(id, 50).unwrap(), (Status::InProgress, None));
}

#[test]
fn expire_targets_pre_vote_records_only() {
    let mut c = setup(1);
    let id = active_proposal(&mut c, 0);
    assert_eq!(c.expire_pre_vote(id, 300), Err(ProposalError::NotFound));
}

#[test]
fn consent_approval_visible_at_later_read() {
    // 10 eligible, for-ratio floor 0.5; with a 30% quorum, three for-votes
    // land before the thresholds are met, give participation 0.3 and
    // for-ratio 1.0, and a read after the casts derives Approved even
    // though the mutation predates the read.
    let mut c = setup_with_quorum(30);
    let id = active_proposal(&mut c, 0);
    assert_eq!(c.cast_consent(301, id, Vote::For, 10, true), Ok(()));
    // One vote out of 10 eligible misses the quorum.
    assert_eq!(c.get_proposal(id, 10).unwrap().proposal.status, Status::InProgress);
    assert_eq!(c.cast_consent(302, id, Vote::For, 11, true), Ok(()));
    assert_eq!(c.cast_consent(303, id, Vote::For, 12, true), Ok(()));
    assert_eq!(c.get_proposal(id, 90).unwrap().proposal.status, Status::Approved);
}

#[test]
fn consent_tally_freezes_once_decided() {
    // Two for-votes out of 10 eligible meet the 20% quorum and the 0.5
    // for-ratio: the proposal is decided early. Later votes are refused,
    // so the Approved outcome sticks through every later read.
    let mut c = setup(1);
    let id = active_proposal(&mut c, 0);
    assert_eq!(c.cast_consent(301, id, Vote::For, 10, true), Ok(()));
    assert_eq!(c.cast_consent(302, id, Vote::For, 11, true), Ok(()));
    assert_eq!(c.get_proposal(id, 11).unwrap().proposal.status, Status::Approved);
    assert_eq!(
        c.cast_consent(303, id, Vote::Against, 12, true),
        Err(ProposalError::PhaseClosed)
    );
    assert_eq!(c.get_proposal(id, 150).unwrap().proposal.status, Status::Approved);
    assert_eq!(c.get_proposal(id, 300).unwrap().proposal.status, Status::Approved);
}

#[test]
fn double_consent_vote_fails() {
    let mut c = setup(1);
    let id = active_proposal(&mut c, 0);
    assert_eq!(c.cast_consent(301, id, Vote::For, 10, true), Ok(()));
    assert_eq!(
        c.cast_consent(301, id, Vote::Against, 11, true),
        Err(ProposalError::AlreadyVoted)
    );
    let p = c.get_proposal(id, 11).unwrap();
    assert_eq!(p.proposal.consent_votes, vec![(301, Vote::For)]);
}

#[test]
fn consent_vote_on_pre_vote_record_fails() {
    let mut c = setup(3);
    let id = c.create(PROPOSER, 10, ConsentKind::Simple, 0, true).unwrap();
    assert_eq!(c.cast_consent(301, id, Vote::For, 10, true), Err(ProposalError::NotFound));
}

#[test]
fn consent_vote_after_deadline_fails_phase_closed() {
    let mut c = setup(1);
    let id = active_proposal(&mut c, 0);
    // The active window runs to 200; a later cast is refused.
    assert_eq!(c.cast_consent(301, id, Vote::For, 200, true), Ok(()));
    assert_eq!(
        c.cast_consent(305, id, Vote::Against, 201, true),
        Err(ProposalError::PhaseClosed)
    );
}

#[test]
fn consent_vote_on_spam_record_fails_phase_closed() {
    let mut c = setup(1);
    let id = active_proposal(&mut c, 0);
    c.mark_spam(ADMIN, id).unwrap();
    assert_eq!(
        c.cast_consent(301, id, Vote::For, 10, true),
        Err(ProposalError::PhaseClosed)
    );
}

#[test]
fn undecided_active_rejects_at_deadline() {
    let mut c = setup(1);
    let id = active_proposal(&mut c, 0);
    assert_eq!(c.cast_consent(301, id, Vote::Against, 10, true), Ok(()));
    assert_eq!(c.cast_consent(302, id, Vote::Against, 11, true), Ok(()));
    assert_eq!(c.cast_consent(303, id, Vote::Against, 12, true), Ok(()));
    assert_eq!(c.cast_consent(304, id, Vote::For, 13, true), Ok(()));
    // For-ratio 1/4 is below 0.5: in progress before the deadline, rejected
    // once it has passed.
    assert_eq!(c.get_proposal(id, 200).unwrap().proposal.status, Status::InProgress);
    assert_eq!(c.get_proposal(id, 201).unwrap().proposal.status, Status::Rejected);
    let (st, disposal) = c.resolve(id, 201).unwrap();
    assert_eq!(st, Status::Rejected);
    assert_eq!(disposal.unwrap().recipient, PROPOSER);
}

#[test]
fn spam_overrides_tally_and_forfeits_bond() {
    // A proposal marked spam mid-active with votes already cast reads as
    // Spam regardless of the tally, and the bond goes to the community
    // treasury, not the proposer. A 60% quorum keeps five votes of 10
    // eligible undecided, so all five land.
    let mut c = setup_with_quorum(60);
    let id = active_proposal(&mut c, 0);
    for v in 301..306 {
        assert_eq!(c.cast_consent(v, id, Vote::For, 10, true), Ok(()));
    }
    let disposal = c.mark_spam(ADMIN, id).unwrap().unwrap();
    assert_eq!(disposal.amount, 10);
    assert_eq!(disposal.recipient, TREASURY);
    assert_eq!(c.get_proposal(id, 20).unwrap().proposal.status, Status::Spam);
    // Marking again is idempotent, and resolving never disposes again.
    assert_eq!(c.mark_spam(ADMIN, id), Ok(None));
    assert_eq!(c.resolve(id, 30).unwrap(), (Status::Spam, None));
}

#[test]
fn mark_spam_requires_admin() {
    let mut c = setup(3);
    let id = c.create(PROPOSER, 10, ConsentKind::Simple, 0, true).unwrap();
    assert_eq!(c.mark_spam(999, id), Err(ProposalError::Unauthorized));
    assert_eq!(c.mark_spam(ADMIN, 42), Err(ProposalError::NotFound));
}

#[test]
fn reads_at_same_time_agree() {
    let mut c = setup(1);
    let id = active_proposal(&mut c, 0);
    c.cast_consent(301, id, Vote::For, 10, true).unwrap();
    let a = c.get_proposal(id, 150).unwrap();
    let b = c.get_proposal(id, 150).unwrap();
    assert_eq!(a, b);
}
