//! Query layer: paginated, optionally reverse-ordered, read-only access over
//! the proposal store, with the status recomputed on every read.

use vstd::prelude::*;

use crate::ctrl::Contract;
use crate::proposal::{record_eq, refreshed, Phase, Proposal};
use crate::policy::Consent;
use crate::ctrl::Accounts;

verus! {

/// One proposal as handed out by the query layer: the id beside the record,
/// with the record's status freshly recomputed.
#[derive(Clone, Debug, PartialEq)]
pub struct ProposalOutput {
    /// Id of the proposal.
    pub id: u32,
    pub proposal: Proposal,
}

/// The configuration surface as handed out by the query layer.
#[derive(Clone, Debug, PartialEq)]
pub struct ConfigOutput {
    pub prop_counter: u32,
    pub pre_vote_bond: u128,
    pub active_queue_bond: u128,
    pub pre_vote_support: u32,
    pub simple_consent: Consent,
    pub super_consent: Consent,
    pub voting_duration: u64,
    pub pre_vote_duration: u64,
    pub accounts: Accounts,
}

/// Where a union lookup over the two partitions found a record. Callers must
/// not assume which partition holds a given id.
#[derive(Clone, Debug)]
pub enum Located {
    Active(Proposal),
    PreVote(Proposal),
    Missing,
}

/// First id of the forward window: `max(from_index, 1)`.
pub open spec fn fwd_lo(from_index: u32) -> int {
    if from_index < 1 {
        1
    } else {
        from_index as int
    }
}

/// Last id of the forward window: `min(prop_counter, from_index + limit)`.
pub open spec fn fwd_hi(from_index: u32, limit: u32, prop_counter: u32) -> int {
    if prop_counter < from_index + limit {
        prop_counter as int
    } else {
        from_index + limit
    }
}

/// Anchor (last id) of the reverse window: the counter itself when
/// `from_index` is 0, else `min(from_index, prop_counter)`.
pub open spec fn rev_hi(from_index: u32, prop_counter: u32) -> int {
    if from_index == 0 {
        prop_counter as int
    } else if from_index < prop_counter {
        from_index as int
    } else {
        prop_counter as int
    }
}

/// First id of the reverse window: the `limit` ids preceding the anchor,
/// clamped at 1.
pub open spec fn rev_lo(from_index: u32, limit: u32, prop_counter: u32) -> int {
    let lo = rev_hi(from_index, prop_counter) - limit + 1;
    if lo < 1 {
        1
    } else {
        lo
    }
}

/// First id of the requested window.
pub open spec fn window_lo(from_index: u32, limit: u32, prop_counter: u32, reverse: bool) -> int {
    if reverse {
        rev_lo(from_index, limit, prop_counter)
    } else {
        fwd_lo(from_index)
    }
}

/// Last id of the requested window.
pub open spec fn window_hi(from_index: u32, limit: u32, prop_counter: u32, reverse: bool) -> int {
    if reverse {
        rev_hi(from_index, prop_counter)
    } else {
        fwd_hi(from_index, limit, prop_counter)
    }
}

/// Whether `id` lies in the requested window.
pub open spec fn in_window(
    from_index: u32,
    limit: u32,
    prop_counter: u32,
    reverse: bool,
    id: int,
) -> bool {
    window_lo(from_index, limit, prop_counter, reverse) <= id <= window_hi(
        from_index,
        limit,
        prop_counter,
        reverse,
    )
}

impl Contract {
    /// Union lookup over the two partitions, the active one first: the
    /// record's phase tells which partition holds it.
    pub fn locate(&self, id: u32) -> (l: Located)
        requires
            self.wf(),
        ensures
            match l {
                Located::Missing => !self.has_id(id),
                Located::Active(p) => self.has_id(id) && self.rec(id).phase == Phase::Active
                    && record_eq(self.rec(id), p),
                Located::PreVote(p) => self.has_id(id) && self.rec(id).phase == Phase::PreVote
                    && record_eq(self.rec(id), p),
            },
    {
        if id < 1 || id > self.prop_counter {
            return Located::Missing;
        }
        let i = (id - 1) as usize;
        let rec = &self.records[i];
        let copy = rec.duplicate();
        if matches!(rec.phase, Phase::Active) {
            Located::Active(copy)
        } else {
            Located::PreVote(copy)
        }
    }

    /// Get one proposal, from whichever partition holds it, with its status
    /// recomputed for time `now`. Returns `None` exactly on unassigned ids.
    pub fn get_proposal(&self, id: u32, now: u64) -> (r: Option<ProposalOutput>)
        requires
            self.wf(),
        ensures
            r is Some <==> self.has_id(id),
            r is Some ==> r.unwrap().id == id && refreshed(
                self.rec(id),
                r.unwrap().proposal,
                now,
                self.eligible_population,
                self.simple_consent,
                self.super_consent,
            ),
    {
        let found = match self.locate(id) {
            Located::Missing => None,
            Located::Active(p) => Some(p),
            Located::PreVote(p) => Some(p),
        };
        match found {
            None => None,
            Some(p) => {
                let mut p = p;
                let st = p.current_status(
                    now,
                    self.eligible_population,
                    &self.simple_consent,
                    &self.super_consent,
                );
                p.status = st;
                Some(ProposalOutput { id: id, proposal: p })
            },
        }
    }

    /// List the proposals of the active partition whose ids fall in the
    /// requested window and which were not marked as spam, each with its
    /// status recomputed for time `now`.
    ///
    /// Forward, the window is `max(from_index, 1) ..= min(prop_counter,
    /// from_index + limit)`, ascending. Reverse, the window anchors at
    /// `prop_counter` when `from_index` is 0 (else at `min(from_index,
    /// prop_counter)`) and holds the `limit` preceding ids, clamped at 1,
    /// descending. Ids of the pre-vote partition and spam-marked records
    /// are silently skipped, never an error; the single-record lookup still
    /// reaches both.
    #[verifier::rlimit(80)]
    pub fn get_proposals(
        &self,
        from_index: u32,
        limit: u32,
        reverse: Option<bool>,
        now: u64,
    ) -> (out: Vec<ProposalOutput>)
        requires
            self.wf(),
        ensures
            ({
                let rev = reverse == Some::<bool>(true);
                &&& forall|k: int|
                    0 <= k < out@.len() ==> {
                        let o = #[trigger] out@[k];
                        &&& in_window(from_index, limit, self.prop_counter, rev, o.id as int)
                        &&& self.has_id(o.id)
                        &&& self.rec(o.id).phase == Phase::Active
                        &&& !self.rec(o.id).is_spam
                        &&& refreshed(
                            self.rec(o.id),
                            o.proposal,
                            now,
                            self.eligible_population,
                            self.simple_consent,
                            self.super_consent,
                        )
                    }
                &&& forall|k1: int, k2: int|
                    0 <= k1 < k2 < out@.len() ==> (if rev {
                        (#[trigger] out@[k1]).id > (#[trigger] out@[k2]).id
                    } else {
                        out@[k1].id < out@[k2].id
                    })
                &&& forall|id: u32|
                    in_window(from_index, limit, self.prop_counter, rev, id as int) && self.has_id(
                        id,
                    ) && (#[trigger] self.rec(id)).phase == Phase::Active && !self.rec(id).is_spam
                        ==> exists|k: int| 0 <= k < out@.len() && (#[trigger] out@[k]).id == id
            }),
    {
        let rev = match reverse {
            Some(b) => b,
            None => false,
        };
        let pc = self.prop_counter;
        let ghost rev_g = reverse == Some::<bool>(true);
        let mut out: Vec<ProposalOutput> = Vec::new();
        if rev {
            let hi: u64 = if from_index == 0 {
                pc as u64
            } else if from_index < pc {
                from_index as u64
            } else {
                pc as u64
            };
            let lo: u64 = if hi + 1 > limit as u64 {
                hi + 1 - limit as u64
            } else {
                1
            };
            let lo: u64 = if lo < 1 {
                1
            } else {
                lo
            };
            proof {
                assert(lo == rev_lo(from_index, limit, pc));
                assert(hi == rev_hi(from_index, pc));
            }
            let mut id: u64 = hi;
            while id >= lo
                invariant
                    self.records@.len() == pc,
                    pc == self.prop_counter,
                    rev_g,
                    1 <= lo,
                    lo - 1 <= hi <= pc,
                    lo - 1 <= id <= hi,
                    lo == window_lo(from_index, limit, pc, rev_g),
                    hi == window_hi(from_index, limit, pc, rev_g),
                    forall|k: int|
                        0 <= k < out@.len() ==> {
                            let o = #[trigger] out@[k];
                            &&& id < o.id <= hi
                            &&& self.has_id(o.id)
                            &&& self.rec(o.id).phase == Phase::Active
                            &&& !self.rec(o.id).is_spam
                            &&& refreshed(
                                self.rec(o.id),
                                o.proposal,
                                now,
                                self.eligible_population,
                                self.simple_consent,
                                self.super_consent,
                            )
                        },
                    forall|k1: int, k2: int|
                        0 <= k1 < k2 < out@.len() ==> (#[trigger] out@[k1]).id > (#[trigger] out@[k2]).id,
                    forall|id2: u32|
                        id < id2 <= hi && (#[trigger] self.rec(id2)).phase == Phase::Active
                            && !self.rec(id2).is_spam ==> exists|k: int|
                            0 <= k < out@.len() && (#[trigger] out@[k]).id == id2,
                decreases id,
            {
                let idu: u32 = id as u32;
                let i = (id - 1) as usize;
                proof {
                    assert(idu == id);
                    assert(self.rec(idu) == self.records@[i as int]);
                }
                let rec = &self.records[i];
                if matches!(rec.phase, Phase::Active) && !rec.is_spam {
                    let mut p = rec.duplicate();
                    let st = rec.current_status(
                        now,
                        self.eligible_population,
                        &self.simple_consent,
                        &self.super_consent,
                    );
                    p.status = st;
                    let ghost out0 = out@;
                    out.push(ProposalOutput { id: idu, proposal: p });
                    proof {
                        assert(forall|k: int| 0 <= k < out0.len() ==> out@[k] == out0[k]);
                        assert(out@[out@.len() - 1].id == idu);
                    }
                }
                id = id - 1;
            }
        } else {
            let lo: u64 = if from_index < 1 {
                1
            } else {
                from_index as u64
            };
            let sum: u64 = from_index as u64 + limit as u64;
            let hi: u64 = if (pc as u64) < sum {
                pc as u64
            } else {
                sum
            };
            proof {
                assert(lo == fwd_lo(from_index));
                assert(hi == fwd_hi(from_index, limit, pc));
            }
            let mut id: u64 = lo;
            while id <= hi
                invariant
                    self.records@.len() == pc,
                    pc == self.prop_counter,
                    !rev_g,
                    1 <= lo,
                    hi <= pc,
                    lo <= id,
                    id <= hi + 1 || out@.len() == 0,
                    lo == window_lo(from_index, limit, pc, rev_g),
                    hi == window_hi(from_index, limit, pc, rev_g),
                    forall|k: int|
                        0 <= k < out@.len() ==> {
                            let o = #[trigger] out@[k];
                            &&& lo <= o.id < id
                            &&& self.has_id(o.id)
                            &&& self.rec(o.id).phase == Phase::Active
                            &&& !self.rec(o.id).is_spam
                            &&& refreshed(
                                self.rec(o.id),
                                o.proposal,
                                now,
                                self.eligible_population,
                                self.simple_consent,
                                self.super_consent,
                            )
                        },
                    forall|k1: int, k2: int|
                        0 <= k1 < k2 < out@.len() ==> (#[trigger] out@[k1]).id < (#[trigger] out@[k2]).id,
                    forall|id2: u32|
                        lo <= id2 < id && (#[trigger] self.rec(id2)).phase == Phase::Active
                            && !self.rec(id2).is_spam ==> exists|k: int|
                            0 <= k < out@.len() && (#[trigger] out@[k]).id == id2,
                decreases hi + 1 - id,
            {
                let idu: u32 = id as u32;
                let i = (id - 1) as usize;
                proof {
                    assert(idu == id);
                    assert(self.rec(idu) == self.records@[i as int]);
                }
                let rec = &self.records[i];
                if matches!(rec.phase, Phase::Active) && !rec.is_spam {
                    let mut p = rec.duplicate();
                    let st = rec.current_status(
                        now,
                        self.eligible_population,
                        &self.simple_consent,
                        &self.super_consent,
                    );
                    p.status = st;
                    let ghost out0 = out@;
                    out.push(ProposalOutput { id: idu, proposal: p });
                    proof {
                        assert(forall|k: int| 0 <= k < out0.len() ==> out@[k] == out0[k]);
                        assert(out@[out@.len() - 1].id == idu);
                    }
                }
                id = id + 1;
            }
        }
        out
    }

    /// Total number of proposals ever created; ids run `1 ..=` this counter.
    pub fn number_of_proposals(&self) -> (n: u32)
        ensures
            n == self.prop_counter,
    {
        self.prop_counter
    }

    /// The configuration surface, read-only.
    pub fn config(&self) -> (c: ConfigOutput)
        ensures
            c.prop_counter == self.prop_counter,
            c.pre_vote_bond == self.pre_vote_bond,
            c.active_queue_bond == self.active_queue_bond,
            c.pre_vote_support == self.pre_vote_support,
            c.simple_consent == self.simple_consent,
            c.super_consent == self.super_consent,
            c.voting_duration == self.voting_duration,
            c.pre_vote_duration == self.pre_vote_duration,
            c.accounts == self.accounts,
    {
        ConfigOutput {
            prop_counter: self.prop_counter,
            pre_vote_bond: self.pre_vote_bond,
            active_queue_bond: self.active_queue_bond,
            pre_vote_support: self.pre_vote_support,
            simple_consent: self.simple_consent,
            super_consent: self.super_consent,
            voting_duration: self.voting_duration,
            pre_vote_duration: self.pre_vote_duration,
            accounts: self.accounts,
        }
    }
}

} // verus!
