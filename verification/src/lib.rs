//! A credentialed, time-boxed collective-decision engine.
//!
//! Proposals are created against a bond, qualify out of a pre-vote phase by
//! gathering distinct supporters, and are then decided in an active phase by a
//! configurable consent policy (a participation quorum and a for-ratio
//! threshold, in a simple and a super tier). A proposal's status is never
//! stored as ground truth: it is recomputed on every read from the phase, the
//! deadlines, the tallies and the spam flag, so elapsed time is reflected
//! without any background scheduler.
//!
//! Eligibility ("does this account hold a valid credential right now?") is an
//! external oracle: callers pass its boolean answer in. Bond transfers are
//! likewise external: the engine only decides the amount and the recipient of
//! each disposal and guarantees it decides at most once per proposal.

pub mod errors;
pub mod policy;
pub mod proposal;
pub mod ctrl;
pub mod view;
pub mod laws;
