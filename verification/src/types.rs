use crate::errors::VestingError;
use vstd::arithmetic::div_mod::{
    lemma_div_is_ordered, lemma_div_multiples_vanish, lemma_div_pos_is_pos,
    lemma_fundamental_div_mod, lemma_mod_bound, lemma_mod_decreases,
};
use vstd::arithmetic::mul::{lemma_mul_inequality, lemma_mul_nonnegative};
use vstd::prelude::*;

verus! {

/// Upper bound on the slice length: thirty days, in seconds.
pub const THIRTY_DAYS: u64 = 2592000;

/// The time geometry of a grant: when it starts, how long the cliff lasts,
/// how long the whole grant lasts, and how coarsely vesting progress is
/// quantized. All offsets are in seconds; `start_unix` is absolute seconds
/// since the epoch.
#[derive(Debug, Clone)]
pub struct VestingTimeline {
    pub cliff_seconds: u64,
    pub start_unix: u64,
    pub duration_seconds: u64,
    pub seconds_per_slice: u64,
}

/// The timeline's boundaries as absolute timestamps.
pub struct UnixVestingTimeline {
    pub start_unix: u64,
    pub cliff_unix: u64,
    pub end_unix: u64,
}

impl VestingTimeline {
    /// The structural invariant that validated construction establishes:
    /// the cliff fits inside the grant, and the slice is positive, at most
    /// thirty days, and no longer than the grant.
    pub open spec fn wf(self) -> bool {
        &&& self.cliff_seconds <= self.duration_seconds
        &&& 0 < self.seconds_per_slice <= THIRTY_DAYS
        &&& self.seconds_per_slice <= self.duration_seconds
    }

    /// Absolute time at which the cliff ends.
    pub open spec fn cliff_unix(self) -> int {
        self.start_unix + self.cliff_seconds
    }

    /// Absolute time at which the grant ends.
    pub open spec fn end_unix(self) -> int {
        self.start_unix + self.duration_seconds
    }

    /// Derives the absolute cliff and end timestamps from the stored offsets.
    pub fn get_unix_timeline(&self) -> (r: UnixVestingTimeline)
        requires
            self.start_unix + self.cliff_seconds <= u64::MAX,
            self.start_unix + self.duration_seconds <= u64::MAX,
        ensures
            r.start_unix == self.start_unix,
            r.cliff_unix == self.cliff_unix(),
            r.end_unix == self.end_unix(),
            self.cliff_seconds <= self.duration_seconds ==> r.cliff_unix <= r.end_unix,
    {
        let cliff_unix = self.start_unix + self.cliff_seconds;
        let end_unix = self.start_unix + self.duration_seconds;
        UnixVestingTimeline { start_unix: self.start_unix, cliff_unix, end_unix }
    }
}

/// The immutable terms of a grant: its timeline and the total amount of
/// tokens granted over the full duration.
#[derive(Debug, Clone)]
pub struct VestingTerms {
    pub timeline: VestingTimeline,
    pub amount: u64,
}

/// The mutable issuance state of a grant, updated by the caller whenever
/// tokens are actually disbursed or the grant is revoked.
#[derive(Debug, Clone)]
pub struct VestingState {
    pub revoked: bool,
    pub amount_already_issued: u64,
}

/// A vesting grant that can be queried for its releasable amount.
#[derive(Debug, Clone)]
pub struct Vesting {
    pub terms: VestingTerms,
    pub state: VestingState,
}

/// External parameters used to compute the releasable amount.
pub struct GetReleasableAmountParams {
    /// Current UNIX epoch, in seconds.
    pub current_time_unix: u64,
}

impl VestingTerms {
    /// Seconds vested at time `t` while the grant is running: the elapsed
    /// time since the start, floored to the most recent completed slice
    /// boundary. Boundaries are anchored at the start, not at the cliff.
    pub open spec fn vested_seconds_at(self, t: u64) -> int {
        let elapsed = t - self.timeline.start_unix;
        elapsed - elapsed % (self.timeline.seconds_per_slice as int)
    }

    /// Tokens vested at time `t` while the grant is running: the share of
    /// the total amount proportional to the vested seconds, rounded down.
    pub open spec fn vested_amount_at(self, t: u64) -> int {
        self.vested_seconds_at(t) * self.amount / (self.timeline.duration_seconds as int)
    }
}

impl Vesting {
    /// The invariant that validated construction establishes: a well-formed
    /// timeline, and no more issued than the total grant.
    pub open spec fn wf(self) -> bool {
        &&& self.terms.timeline.wf()
        &&& self.state.amount_already_issued <= self.terms.amount
    }

    /// The amount a non-revoked grant owes at time `t`: zero before the
    /// cliff, the full remainder from the end of the grant on, and in
    /// between the slice-quantized linear share minus what was already
    /// issued.
    pub open spec fn releasable_at(self, t: u64) -> int {
        if t < self.terms.timeline.cliff_unix() {
            0
        } else if t >= self.terms.timeline.end_unix() {
            self.terms.amount - self.state.amount_already_issued
        } else {
            self.terms.vested_amount_at(t) - self.state.amount_already_issued
        }
    }

    /// Returns the amount releasable by the owner of the grant (vested
    /// amount minus what was already issued), or `Revoked` if the grant was
    /// revoked.
    pub fn get_releasable_amount(&self, params: &GetReleasableAmountParams) -> (r: Result<
        u64,
        VestingError,
    >)
        requires
            !self.state.revoked ==> self.wf(),
            !self.state.revoked ==> self.terms.timeline.end_unix() <= u64::MAX,
            !self.state.revoked && self.terms.timeline.cliff_unix() <= params.current_time_unix
                < self.terms.timeline.end_unix() ==> self.state.amount_already_issued
                <= self.terms.vested_amount_at(params.current_time_unix),
        ensures
            r is Err <==> self.state.revoked,
            self.state.revoked ==> r == Err::<u64, VestingError>(VestingError::Revoked),
            !self.state.revoked ==> (r matches Ok(a) && a == self.releasable_at(
                params.current_time_unix,
            )),
            !self.state.revoked && params.current_time_unix < self.terms.timeline.cliff_unix()
                ==> r == Ok::<u64, VestingError>(0),
            !self.state.revoked && params.current_time_unix >= self.terms.timeline.end_unix() ==> (
            r matches Ok(a) && a == self.terms.amount - self.state.amount_already_issued),
            !self.state.revoked && self.terms.timeline.cliff_unix() <= params.current_time_unix
                < self.terms.timeline.end_unix() ==> (r matches Ok(a) && a
                == self.terms.vested_amount_at(params.current_time_unix)
                - self.state.amount_already_issued),
    {
        // Grant was revoked. Revocation is terminal and time-independent.
        if self.state.revoked {
            return Err(VestingError::Revoked);
        }
        let current_time_unix = params.current_time_unix;
        let unix_timeline = self.terms.timeline.get_unix_timeline();

        // Too early, cliff not reached yet.
        if current_time_unix < unix_timeline.cliff_unix {
            return Ok(0);
        }

        // Reached the end of the grant: grant the remainder directly,
        // without slice quantization.
        if current_time_unix >= unix_timeline.end_unix {
            let remaining_amount = self.terms.amount - self.state.amount_already_issued;
            return Ok(remaining_amount);
        }

        // Cliff was reached and the grant end date is not reached yet.
        let elapsed_seconds = current_time_unix - unix_timeline.start_unix;
        proof {
            lemma_vested_amount_bounds(self.terms, current_time_unix);
        }
        let vested_seconds = elapsed_seconds - elapsed_seconds
            % self.terms.timeline.seconds_per_slice;
        proof {
            assert((vested_seconds as u128) * (self.terms.amount as u128) <= u128::MAX
                && (vested_seconds as u128) * (self.terms.amount as u128) == (
            vested_seconds as int) * (self.terms.amount as int)) by (nonlinear_arith)
                requires
                    vested_seconds <= u64::MAX,
                    self.terms.amount <= u64::MAX,
            ;
        }
        // Multiply before dividing, in 128 bits, so that precision is kept
        // and the product cannot overflow.
        let vested_amount_wide = (vested_seconds as u128) * (self.terms.amount as u128) / (
        self.terms.timeline.duration_seconds as u128);
        let vested_amount = vested_amount_wide as u64;
        let remaining_amount = vested_amount - self.state.amount_already_issued;
        Ok(remaining_amount)
    }
}

/// Monotonicity of the releasable amount: for a fixed non-revoked,
/// non-mutated grant with a well-formed timeline, the amount owed at a
/// later time from the cliff on is never smaller than the amount owed at
/// an earlier one.
pub proof fn lemma_releasable_monotone(v: Vesting, t1: u64, t2: u64)
    requires
        v.terms.timeline.wf(),
        v.terms.timeline.cliff_unix() <= t1 <= t2,
    ensures
        v.releasable_at(t1) <= v.releasable_at(t2),
{
    let start = v.terms.timeline.start_unix as int;
    let s = v.terms.timeline.seconds_per_slice as int;
    let d = v.terms.timeline.duration_seconds as int;
    let a = v.terms.amount as int;
    if t1 < v.terms.timeline.end_unix() {
        lemma_vested_amount_bounds(v.terms, t1);
        if t2 < v.terms.timeline.end_unix() {
            let e1 = t1 - start;
            let e2 = t2 - start;
            lemma_fundamental_div_mod(e1, s);
            lemma_fundamental_div_mod(e2, s);
            lemma_div_is_ordered(e1, e2, s);
            lemma_mul_inequality(e1 / s, e2 / s, s);
            assert(v.terms.vested_seconds_at(t1) <= v.terms.vested_seconds_at(t2));
            lemma_mul_inequality(
                v.terms.vested_seconds_at(t1),
                v.terms.vested_seconds_at(t2),
                a,
            );
            lemma_div_is_ordered(
                v.terms.vested_seconds_at(t1) * a,
                v.terms.vested_seconds_at(t2) * a,
                d,
            );
        }
    }
}

/// Bounds on the slice-quantized vesting amounts while the grant is
/// running: the vested seconds never exceed the elapsed time, stay under
/// the duration, and the vested amount never exceeds the total grant.
pub proof fn lemma_vested_amount_bounds(terms: VestingTerms, t: u64)
    requires
        terms.timeline.wf(),
        terms.timeline.cliff_unix() <= t < terms.timeline.end_unix(),
    ensures
        0 <= terms.vested_seconds_at(t) <= t - terms.timeline.start_unix,
        terms.vested_seconds_at(t) < terms.timeline.duration_seconds,
        0 <= terms.vested_amount_at(t) <= terms.amount,
{
    let start = terms.timeline.start_unix as int;
    let s = terms.timeline.seconds_per_slice as int;
    let d = terms.timeline.duration_seconds as int;
    let a = terms.amount as int;
    let e = t - start;
    let vs = terms.vested_seconds_at(t);
    lemma_mod_bound(e, s);
    lemma_mod_decreases(e as nat, s as nat);
    assert(0 <= vs <= e < d);
    lemma_mul_nonnegative(vs, a);
    lemma_div_pos_is_pos(vs * a, d);
    lemma_mul_inequality(vs, d, a);
    lemma_div_is_ordered(vs * a, d * a, d);
    lemma_div_multiples_vanish(a, d);
}

} // verus!
