use voting_body::ctrl::{Accounts, Contract};
use voting_body::policy::{evaluate, Consent, ConsentKind, Verdict};
use voting_body::errors::VoteError;
use voting_body::proposal::{Phase, Status};
use voting_body::view::Located;

const ADMIN: u64 = 1;
const TREASURY: u64 = 2;
const PROPOSER: u64 = 100;

fn registry() -> Contract {
    Contract::new(
        10,
        50,
        1,
        Consent { quorum: 20, threshold: 50 },
        Consent { quorum: 30, threshold: 60 },
        100,
        200,
        10,
        Accounts { iah_registry: 3, community_treasury: TREASURY, admin: ADMIN },
    )
}

/// A registry with `n` proposals, every one already promoted to the active
/// phase.
fn filled(n: u32) -> Contract {
    let mut c = registry();
    for k in 0..n {
        let id = c.create(PROPOSER, 10, ConsentKind::Simple, 0, true).unwrap();
        assert_eq!(id, k + 1);
        assert_eq!(c.support(200 + k as u64, id, 0, true), Ok(true));
    }
    c
}

fn ids(out: &[voting_body::view::ProposalOutput]) -> Vec<u32> {
    out.iter().map(|o| o.id).collect()
}

#[test]
fn reverse_listing_anchors_at_counter() {
    // from_index 0 with reverse anchors at the counter: a store of 12 gives
    // ids 8..=12, descending.
    let c = filled(12);
    let out = c.get_proposals(0, 5, Some(true), 1);
    assert_eq!(ids(&out), vec![12, 11, 10, 9, 8]);
}

#[test]
fn reverse_listing_clamps_at_one() {
    let c = filled(12);
    assert_eq!(ids(&c.get_proposals(3, 5, Some(true), 1)), vec![3, 2, 1]);
    assert_eq!(ids(&c.get_proposals(50, 2, Some(true), 1)), vec![12, 11]);
}

#[test]
fn forward_listing_window() {
    let c = filled(12);
    assert_eq!(ids(&c.get_proposals(0, 5, None, 1)), vec![1, 2, 3, 4, 5]);
    assert_eq!(ids(&c.get_proposals(6, 3, Some(false), 1)), vec![6, 7, 8, 9]);
    assert_eq!(ids(&c.get_proposals(10, 5, None, 1)), vec![10, 11, 12]);
}

#[test]
fn listings_on_empty_store_are_empty() {
    let c = registry();
    assert!(c.get_proposals(0, 5, None, 1).is_empty());
    assert!(c.get_proposals(0, 5, Some(true), 1).is_empty());
}

#[test]
fn listing_skips_pre_vote_records() {
    let mut c = registry();
    for _ in 0..3 {
        c.create(PROPOSER, 10, ConsentKind::Simple, 0, true).unwrap();
    }
    assert_eq!(c.support(201, 2, 0, true), Ok(true));
    let out = c.get_proposals(0, 10, None, 1);
    assert_eq!(ids(&out), vec![2]);
    assert_eq!(out[0].proposal.phase, Phase::Active);
    // The single-record lookup still reaches the pre-vote partition.
    assert!(c.get_proposal(1, 1).is_some());
}

#[test]
fn listing_recomputes_status_on_read() {
    let mut c = registry();
    let id = c.create(PROPOSER, 10, ConsentKind::Simple, 0, true).unwrap();
    c.support(201, id, 0, true).unwrap();
    // Past the voting deadline the listing derives Rejected, with no
    // intervening write.
    let out = c.get_proposals(0, 5, None, 201);
    assert_eq!(out[0].proposal.status, Status::Rejected);
}

#[test]
fn tiled_windows_cover_each_id_once() {
    // Forward windows step by limit + 1, reverse anchors step by limit:
    // tiled contiguously, together they cover every id exactly once.
    let c = filled(7);
    let mut forward: Vec<u32> = Vec::new();
    for from in [0u32, 3, 6] {
        forward.extend(ids(&c.get_proposals(from, 2, None, 1)));
    }
    assert_eq!(forward, vec![1, 2, 3, 4, 5, 6, 7]);
    let mut reverse: Vec<u32> = Vec::new();
    for from in [7u32, 4, 1] {
        reverse.extend(ids(&c.get_proposals(from, 3, Some(true), 1)));
    }
    assert_eq!(reverse, vec![7, 6, 5, 4, 3, 2, 1]);
}

#[test]
fn listing_excludes_spam_records() {
    let mut c = filled(3);
    c.mark_spam(ADMIN, 2).unwrap();
    // The listing covers the active queue without spam-marked proposals;
    // the single-record lookup still returns the record, as Spam.
    assert_eq!(ids(&c.get_proposals(0, 10, None, 1)), vec![1, 3]);
    assert_eq!(ids(&c.get_proposals(0, 10, Some(true), 1)), vec![3, 1]);
    assert_eq!(c.get_proposal(2, 1).unwrap().proposal.status, Status::Spam);
}

#[test]
fn zero_limit_windows() {
    let c = filled(12);
    // Forward, the window is inclusive at both ends: limit 0 still holds
    // the id at from_index itself.
    assert_eq!(ids(&c.get_proposals(3, 0, None, 1)), vec![3]);
    // Reverse, limit counts the ids handed out: limit 0 yields none.
    assert!(c.get_proposals(5, 0, Some(true), 1).is_empty());
}

#[test]
fn locate_reports_partition() {
    let mut c = registry();
    let pre = c.create(PROPOSER, 10, ConsentKind::Simple, 0, true).unwrap();
    let act = c.create(PROPOSER, 10, ConsentKind::Simple, 0, true).unwrap();
    c.support(201, act, 0, true).unwrap();
    assert!(matches!(c.locate(pre), Located::PreVote(_)));
    assert!(matches!(c.locate(act), Located::Active(_)));
    assert!(matches!(c.locate(99), Located::Missing));
    assert!(c.get_proposal(99, 1).is_none());
}

#[test]
fn config_reports_configuration() {
    let mut c = registry();
    c.create(PROPOSER, 10, ConsentKind::Simple, 0, true).unwrap();
    let cfg = c.config();
    assert_eq!(cfg.prop_counter, 1);
    assert_eq!(cfg.pre_vote_bond, 10);
    assert_eq!(cfg.active_queue_bond, 50);
    assert_eq!(cfg.pre_vote_support, 1);
    assert_eq!(cfg.simple_consent, Consent { quorum: 20, threshold: 50 });
    assert_eq!(cfg.super_consent, Consent { quorum: 30, threshold: 60 });
    assert_eq!(cfg.pre_vote_duration, 100);
    assert_eq!(cfg.voting_duration, 200);
    assert_eq!(cfg.accounts.admin, ADMIN);
    assert_eq!(cfg.accounts.community_treasury, TREASURY);
    assert_eq!(c.number_of_proposals(), 1);
}

#[test]
fn evaluate_exact_thresholds() {
    let simple = Consent { quorum: 20, threshold: 50 };
    // 3 of 10 eligible, all for: participation 30% and ratio 100% pass.
    assert_eq!(evaluate(3, 3, 10, &simple, false), Verdict::Passed);
    // 1 of 10 misses the quorum: undecided before, rejected after deadline.
    assert_eq!(evaluate(1, 1, 10, &simple, false), Verdict::Undecided);
    assert_eq!(evaluate(1, 1, 10, &simple, true), Verdict::Rejected);
    // Exactly at both bounds passes: 2 of 10 cast, 1 of 2 for.
    assert_eq!(evaluate(1, 2, 10, &simple, false), Verdict::Passed);
    // An empty tally divides by max(cast, 1) and misses the ratio.
    assert_eq!(evaluate(0, 0, 10, &simple, true), Verdict::Rejected);
    // A zero eligible population makes the quorum trivially met.
    assert_eq!(evaluate(1, 1, 0, &simple, false), Verdict::Passed);
}

#[test]
fn vote_error_values_compare() {
    assert_eq!(VoteError::DoubleVote(5), VoteError::DoubleVote(5));
    assert_ne!(VoteError::DoubleVote(5), VoteError::DoubleVote(6));
    assert_ne!(VoteError::WrongIssuer, VoteError::NoSBTs);
    assert_ne!(VoteError::DuplicateCandidate, VoteError::NotVoted);
    assert_ne!(VoteError::RevokeNotActive, VoteError::DoubleRevoke);
}
