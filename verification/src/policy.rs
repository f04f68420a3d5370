//! Consent policy: a pure mapping from a vote tally and the eligible
//! population to a verdict, for a given `(quorum, threshold)` configuration.

use vstd::prelude::*;

verus! {

/// One consent configuration. Both fields are percentages in `0..=100`:
/// `quorum` is the participation floor (cast votes over the eligible
/// population) and `threshold` is the for-ratio floor (for votes over cast
/// votes).
#[derive(Clone, Copy, PartialEq, Eq, Structural, Debug)]
pub struct Consent {
    pub quorum: u32,
    pub threshold: u32,
}

/// A consent configuration is valid when both percentages are at most 100.
pub open spec fn consent_valid(c: Consent) -> bool {
    c.quorum <= 100 && c.threshold <= 100
}

/// Which of the two configured consent tiers applies to a proposal. The tier
/// is chosen once, at creation, and is immutable thereafter.
#[derive(Clone, Copy, PartialEq, Eq, Structural, Debug)]
pub enum ConsentKind {
    Simple,
    Super,
}

/// Outcome of evaluating a consent policy against a tally.
#[derive(Clone, Copy, PartialEq, Eq, Structural, Debug)]
pub enum Verdict {
    Undecided,
    Passed,
    Rejected,
}

/// `cast / eligible >= quorum / 100`, cross-multiplied so the comparison is
/// exact over the integers. An eligible population of zero makes the quorum
/// trivially met.
pub open spec fn quorum_met(cast: nat, eligible: nat, c: Consent) -> bool {
    cast * 100 >= c.quorum * eligible
}

/// `for_votes / max(cast, 1) >= threshold / 100`, cross-multiplied so the
/// comparison is exact over the integers.
pub open spec fn ratio_met(for_votes: nat, cast: nat, c: Consent) -> bool {
    for_votes * 100 >= c.threshold * (if cast == 0 { 1nat } else { cast })
}

/// The pass condition: participation reaches the quorum and the for-ratio
/// reaches the threshold.
pub open spec fn consent_passed(for_votes: nat, cast: nat, eligible: nat, c: Consent) -> bool {
    quorum_met(cast, eligible, c) && ratio_met(for_votes, cast, c)
}

/// The verdict. A tally that meets both floors is `Passed` at once, even
/// before the deadline. A tally that misses one of them is `Undecided` while
/// the deadline is ahead and `Rejected` after it: rejection always waits for
/// the deadline, so reading early and reading late agree on every decided
/// outcome.
pub open spec fn spec_verdict(
    for_votes: nat,
    cast: nat,
    eligible: nat,
    c: Consent,
    deadline_passed: bool,
) -> Verdict {
    if consent_passed(for_votes, cast, eligible, c) {
        Verdict::Passed
    } else if deadline_passed {
        Verdict::Rejected
    } else {
        Verdict::Undecided
    }
}

/// Evaluate a consent policy on a tally of `for_votes` for-votes out of
/// `cast` cast votes, against an eligible population and a configuration.
pub fn evaluate(
    for_votes: u64,
    cast: u64,
    eligible: u32,
    c: &Consent,
    deadline_passed: bool,
) -> (v: Verdict)
    ensures
        v == spec_verdict(for_votes as nat, cast as nat, eligible as nat, *c, deadline_passed),
{
    proof {
        assert((c.quorum as int) * (eligible as int) <= (u32::MAX as int) * (u32::MAX as int))
            by (nonlinear_arith)
            requires
                c.quorum <= u32::MAX,
                eligible <= u32::MAX,
        ;
        assert((c.threshold as int) * (if cast == 0 { 1int } else { cast as int })
            <= (u32::MAX as int) * (u64::MAX as int)) by (nonlinear_arith)
            requires
                c.threshold <= u32::MAX,
                cast <= u64::MAX,
        ;
    }
    let quorum_need: u128 = (c.quorum as u128) * (eligible as u128);
    let quorum_ok: bool = (cast as u128) * 100 >= quorum_need;
    let denom: u128 = if cast == 0 { 1 } else { cast as u128 };
    let ratio_need: u128 = (c.threshold as u128) * denom;
    let ratio_ok: bool = (for_votes as u128) * 100 >= ratio_need;
    if quorum_ok && ratio_ok {
        Verdict::Passed
    } else if deadline_passed {
        Verdict::Rejected
    } else {
        Verdict::Undecided
    }
}

} // verus!
