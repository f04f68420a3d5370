//! The engine's cross-call guarantees, stated and proved over the same step
//! relations and spec functions that the operations' own contracts use.

use vstd::prelude::*;
use vstd::arithmetic::div_mod::{lemma_fundamental_div_mod, lemma_fundamental_div_mod_converse, lemma_mod_bound};

use crate::ctrl::{cast_step, mark_spam_step, resolve_step, support_step, BondDisposal, Contract};
use crate::errors::ProposalError;
use crate::proposal::{phase_le, refreshed, Phase, Proposal, Status, Vote};
use crate::view::in_window;

verus! {

/// No double counting of support: after a successful, non-promoting support
/// by a voter, a further `support` by the same voter always fails with
/// `AlreadySupported` and changes nothing; after the promoting one, the
/// record has left pre-vote and the call fails with `NotFound`, likewise
/// changing nothing. Either way the tally is never touched twice.
pub proof fn lemma_no_double_support(
    pre: Contract,
    mid: Contract,
    post: Contract,
    voter: u64,
    id: u32,
    now1: u64,
    now2: u64,
    r1: Result<bool, ProposalError>,
    r2: Result<bool, ProposalError>,
)
    requires
        support_step(pre, mid, voter, id, now1, true, r1),
        r1 is Ok,
        support_step(mid, post, voter, id, now2, true, r2),
    ensures
        r1 == Ok::<bool, ProposalError>(false) ==> r2 == Err::<bool, ProposalError>(
            ProposalError::AlreadySupported,
        ),
        r1 == Ok::<bool, ProposalError>(true) ==> r2 == Err::<bool, ProposalError>(
            ProposalError::NotFound,
        ),
        post == mid,
{
    if r1 == Ok::<bool, ProposalError>(false) {
        assert(mid.rec(id).support_votes@.last() == voter);
        assert(mid.rec(id).support_votes@.contains(voter));
    }
}

/// No double counting of consent votes: after a successful `cast_consent` by
/// a voter, a further cast by the same voter — whatever the vote value and
/// the time — always fails with `AlreadyVoted` and changes nothing.
pub proof fn lemma_no_double_consent(
    pre: Contract,
    mid: Contract,
    post: Contract,
    voter: u64,
    id: u32,
    vote1: Vote,
    vote2: Vote,
    now1: u64,
    now2: u64,
    r1: Result<(), ProposalError>,
    r2: Result<(), ProposalError>,
)
    requires
        cast_step(pre, mid, voter, id, vote1, now1, true, r1),
        r1 is Ok,
        cast_step(mid, post, voter, id, vote2, now2, true, r2),
    ensures
        r2 == Err::<(), ProposalError>(ProposalError::AlreadyVoted),
        post == mid,
{
    assert(mid.rec(id).consent_votes@.last().0 == voter);
}

/// Monotonic phase, composed over time: each operation's contract bounds its
/// own call by `phase_le`; transitivity extends the bound to any sequence of
/// calls, so an observed phase never reverts.
pub proof fn lemma_phase_le_trans(a: Phase, b: Phase, c: Phase)
    requires
        phase_le(a, b),
        phase_le(b, c),
    ensures
        phase_le(a, c),
{
}

/// At-most-once disposal: once a `resolve` has emitted the bond disposal of
/// a proposal, every later `resolve` of the same id returns its status but
/// emits no further disposal.
pub proof fn lemma_disposal_at_most_once(
    pre: Contract,
    mid: Contract,
    post: Contract,
    id: u32,
    now1: u64,
    now2: u64,
    r1: Result<(Status, Option<BondDisposal>), ProposalError>,
    r2: Result<(Status, Option<BondDisposal>), ProposalError>,
)
    requires
        resolve_step(pre, mid, id, now1, r1),
        r1 is Ok,
        r1.unwrap().1 is Some,
        resolve_step(mid, post, id, now2, r2),
    ensures
        r2 is Ok,
        r2.unwrap().1 is None,
{
}

/// At-most-once disposal across operations: once `mark_spam` has forfeited
/// the bond, a later `resolve` of the same id emits no disposal either.
pub proof fn lemma_no_disposal_after_spam_forfeit(
    pre: Contract,
    mid: Contract,
    post: Contract,
    marker: u64,
    id: u32,
    now: u64,
    r1: Result<Option<BondDisposal>, ProposalError>,
    r2: Result<(Status, Option<BondDisposal>), ProposalError>,
)
    requires
        mark_spam_step(pre, mid, marker, id, r1),
        r1 is Ok,
        r1.unwrap() is Some,
        resolve_step(mid, post, id, now, r2),
    ensures
        r2 is Ok,
        r2.unwrap().1 is None,
{
}

/// Deterministic status: two reads of the same proposal at the same
/// timestamp, with no write in between, derive the same status — the status
/// handed out is a pure function of the stored record and the clock.
pub proof fn lemma_status_deterministic(
    c: Contract,
    id: u32,
    now: u64,
    out1: Proposal,
    out2: Proposal,
)
    requires
        refreshed(c.rec(id), out1, now, c.eligible_population, c.simple_consent, c.super_consent),
        refreshed(c.rec(id), out2, now, c.eligible_population, c.simple_consent, c.super_consent),
    ensures
        out1.status == out2.status,
        out1.status == c.status_at(id, now),
{
}

/// Pagination coverage, forward: tile the id axis with windows whose
/// `from_index` values step by `limit + 1`. Every id `1 ..= prop_counter`
/// then falls in exactly one tile — the one with index `id / (limit + 1)` —
/// so contiguous forward listings partition the existing ids.
pub proof fn lemma_forward_tiling(limit: u32, prop_counter: u32, id: u32, j: int)
    requires
        1 <= id <= prop_counter,
        0 <= j,
        j * (limit as int + 1) <= u32::MAX as int,
    ensures
        in_window((j * (limit as int + 1)) as u32, limit, prop_counter, false, id as int) <==> j
            == id as int / (limit as int + 1),
{
    let width = limit as int + 1;
    let f = j * width;
    let q = id as int / width;
    assert(f == width * j && f >= 0) by (nonlinear_arith)
        requires
            f == j * width,
            j >= 0,
            width >= 1,
    ;
    lemma_fundamental_div_mod(id as int, width);
    lemma_mod_bound(id as int, width);
    assert((j * (limit as int + 1)) as u32 == f);
    if j == q {
        assert(f == width * q);
        assert(f <= id as int && id as int <= f + limit as int);
        assert(in_window(f as u32, limit, prop_counter, false, id as int));
    }
    if in_window(f as u32, limit, prop_counter, false, id as int) {
        assert(f <= id as int);
        lemma_fundamental_div_mod_converse(id as int, width, j, id as int - f);
    }
}

/// Pagination coverage, forward, existence half: every existing id falls in
/// the tile whose index is `id / (limit + 1)`.
pub proof fn lemma_forward_tiling_covers(limit: u32, prop_counter: u32, id: u32)
    requires
        1 <= id <= prop_counter,
    ensures
        in_window(
            ((id as int / (limit as int + 1)) * (limit as int + 1)) as u32,
            limit,
            prop_counter,
            false,
            id as int,
        ),
{
    let width = limit as int + 1;
    let q = id as int / width;
    lemma_fundamental_div_mod(id as int, width);
    lemma_mod_bound(id as int, width);
    assert(q * width == width * q) by (nonlinear_arith);
    assert(q * width <= id as int);
    lemma_forward_tiling(limit, prop_counter, id, q);
}

/// Pagination coverage, forward, uniqueness half: no id lies in two
/// different tiles, so contiguous forward windows never hand an id out
/// twice.
pub proof fn lemma_forward_tiling_unique(
    limit: u32,
    prop_counter: u32,
    id: u32,
    j1: int,
    j2: int,
)
    requires
        1 <= id <= prop_counter,
        0 <= j1,
        0 <= j2,
        j1 != j2,
        j1 * (limit as int + 1) <= u32::MAX as int,
        j2 * (limit as int + 1) <= u32::MAX as int,
    ensures
        !(in_window((j1 * (limit as int + 1)) as u32, limit, prop_counter, false, id as int)
            && in_window((j2 * (limit as int + 1)) as u32, limit, prop_counter, false, id as int)),
{
    lemma_forward_tiling(limit, prop_counter, id, j1);
    lemma_forward_tiling(limit, prop_counter, id, j2);
}

/// Pagination coverage, reverse: anchor windows at `prop_counter` and step
/// the anchor down by `limit`. Every id `1 ..= prop_counter` then falls in
/// exactly one tile — the one with index `(prop_counter - id) / limit` — so
/// contiguous reverse listings partition the existing ids as well.
pub proof fn lemma_reverse_tiling(limit: u32, prop_counter: u32, id: u32, j: int)
    requires
        1 <= limit,
        1 <= id <= prop_counter,
        0 <= j,
        1 <= prop_counter as int - j * (limit as int),
    ensures
        in_window(
            (prop_counter as int - j * (limit as int)) as u32,
            limit,
            prop_counter,
            true,
            id as int,
        ) <==> j == (prop_counter as int - id as int) / (limit as int),
{
    let width = limit as int;
    let gap = prop_counter as int - id as int;
    let anchor = prop_counter as int - j * width;
    let q = gap / width;
    assert(j * width == width * j && j * width >= 0) by (nonlinear_arith)
        requires
            j >= 0,
            width >= 1,
    ;
    lemma_fundamental_div_mod(gap, width);
    lemma_mod_bound(gap, width);
    assert((prop_counter as int - j * (limit as int)) as u32 == anchor);
    if j == q {
        assert(anchor == id as int + (gap % width));
        assert(anchor - width + 1 <= id as int && id as int <= anchor);
        assert(in_window(anchor as u32, limit, prop_counter, true, id as int));
    }
    if in_window(anchor as u32, limit, prop_counter, true, id as int) {
        assert(0 <= anchor - (id as int) && anchor - (id as int) < width);
        lemma_fundamental_div_mod_converse(gap, width, j, anchor - id as int);
    }
}

/// Pagination coverage, reverse, existence half: every existing id falls in
/// the tile whose index is `(prop_counter - id) / limit`.
pub proof fn lemma_reverse_tiling_covers(limit: u32, prop_counter: u32, id: u32)
    requires
        1 <= limit,
        1 <= id <= prop_counter,
    ensures
        in_window(
            (prop_counter as int - ((prop_counter as int - id as int) / (limit as int)) * (
            limit as int)) as u32,
            limit,
            prop_counter,
            true,
            id as int,
        ),
{
    let width = limit as int;
    let gap = prop_counter as int - id as int;
    let q = gap / width;
    lemma_fundamental_div_mod(gap, width);
    lemma_mod_bound(gap, width);
    assert(q * width == width * q) by (nonlinear_arith);
    assert(q * width <= gap);
    assert(1 <= prop_counter as int - q * width);
    lemma_reverse_tiling(limit, prop_counter, id, q);
}

/// Pagination coverage, reverse, uniqueness half: no id lies in two
/// different tiles, so contiguous reverse windows never hand an id out
/// twice.
pub proof fn lemma_reverse_tiling_unique(
    limit: u32,
    prop_counter: u32,
    id: u32,
    j1: int,
    j2: int,
)
    requires
        1 <= limit,
        1 <= id <= prop_counter,
        0 <= j1,
        0 <= j2,
        j1 != j2,
        1 <= prop_counter as int - j1 * (limit as int),
        1 <= prop_counter as int - j2 * (limit as int),
    ensures
        !(in_window(
            (prop_counter as int - j1 * (limit as int)) as u32,
            limit,
            prop_counter,
            true,
            id as int,
        ) && in_window(
            (prop_counter as int - j2 * (limit as int)) as u32,
            limit,
            prop_counter,
            true,
            id as int,
        )),
{
    lemma_reverse_tiling(limit, prop_counter, id, j1);
    lemma_reverse_tiling(limit, prop_counter, id, j2);
}

} // verus!
