//! Counter delta engine: turns two successive cumulative CPU tick
//! snapshots `[user, system, idle, nice]` into an instantaneous split.
//!
//! The split is kept exact: each share is a tick count over the total
//! tick movement of the cycle, so the three shares always sum to the
//! total. Display code may divide to get percentages; `permyriad`
//! values (hundredths of a percent) are provided for charting.

use vstd::prelude::*;

verus! {

/// Saturating subtraction: a counter regression (wraparound or reset)
/// reads as zero movement, never as a negative or huge delta.
pub open spec fn sat_sub(now: int, prev: int) -> int {
    if now >= prev {
        now - prev
    } else {
        0
    }
}

/// Per-field tick delta between two raw snapshots `[user, system, idle, nice]`.
pub open spec fn tick_delta(prev: Seq<u64>, now: Seq<u64>, i: int) -> int {
    sat_sub(now[i] as int, prev[i] as int)
}

/// Total tick movement over one cycle, all four fields together.
pub open spec fn total_delta(prev: Seq<u64>, now: Seq<u64>) -> int {
    tick_delta(prev, now, 0) + tick_delta(prev, now, 1) + tick_delta(prev, now, 2)
        + tick_delta(prev, now, 3)
}

/// Instantaneous CPU usage split for one sampling cycle, as an exact
/// rational: `user`, `system` and `idle` are tick counts out of
/// `total`. "Nice" ticks are folded into `user` (user-space work at
/// adjusted priority). The all-zero split stands for "no data yet".
#[derive(Clone, Copy, Debug, PartialEq, Eq, Structural)]
pub struct CpuSplit {
    /// Ticks spent in user space (user + nice).
    pub user: u128,
    /// Ticks spent in the kernel.
    pub system: u128,
    /// Idle ticks.
    pub idle: u128,
    /// Total tick movement of the cycle; zero means "no data yet".
    pub total: u128,
}

impl CpuSplit {
    /// The shares partition the total, and the total fits in the sum
    /// of four 64-bit deltas (so fixed-point conversions cannot
    /// overflow).
    pub open spec fn wf(self) -> bool {
        &&& self.user + self.system + self.idle == self.total
        &&& self.total < 0x40000000000000000
    }

    /// The initial split, before any sample has been seen.
    pub fn zero() -> (r: CpuSplit)
        ensures
            r == (CpuSplit { user: 0, system: 0, idle: 0, total: 0 }),
            r.wf(),
    {
        CpuSplit { user: 0, system: 0, idle: 0, total: 0 }
    }

    /// Decides well-formedness of a split, for callers that hold one
    /// they did not get from this crate's constructors.
    pub fn check_wf(&self) -> (r: bool)
        ensures
            r == self.wf(),
    {
        self.total < 0x40000000000000000 && self.user <= self.total && self.system <= self.total
            - self.user && self.idle == self.total - self.user - self.system
    }

    /// User share in hundredths of a percent (0 ..= 10000).
    pub fn user_permyriad(&self) -> (r: u64)
        requires
            self.wf(),
        ensures
            r == permyriad(self.user as int, self.total as int),
            r <= 10000,
    {
        share_permyriad(self.user, self.total)
    }

    /// System share in hundredths of a percent (0 ..= 10000).
    pub fn system_permyriad(&self) -> (r: u64)
        requires
            self.wf(),
        ensures
            r == permyriad(self.system as int, self.total as int),
            r <= 10000,
    {
        share_permyriad(self.system, self.total)
    }

    /// Idle share in hundredths of a percent (0 ..= 10000).
    pub fn idle_permyriad(&self) -> (r: u64)
        requires
            self.wf(),
        ensures
            r == permyriad(self.idle as int, self.total as int),
            r <= 10000,
    {
        share_permyriad(self.idle, self.total)
    }
}

/// `part` out of `total` in hundredths of a percent, rounded down;
/// zero when there is no movement to divide by.
pub open spec fn permyriad(part: int, total: int) -> int {
    if total == 0 {
        0
    } else {
        part * 10000 / total
    }
}

fn share_permyriad(part: u128, total: u128) -> (r: u64)
    requires
        part <= total,
        total < 0x40000000000000000,
    ensures
        r == permyriad(part as int, total as int),
        r <= 10000,
{
    if total == 0 {
        0
    } else {
        let q = (part * 10000) / total;
        proof {
            let p = part as int;
            let t = total as int;
            assert(p * 10000 / t <= 10000) by (nonlinear_arith)
                requires
                    0 <= p <= t && t > 0,
            ;
        }
        q as u64
    }
}

/// The split that one cycle's deltas yield: user and nice ticks fold
/// into the user share, and the total is the sum of all four deltas.
pub open spec fn split_of(prev: Seq<u64>, now: Seq<u64>) -> CpuSplit {
    CpuSplit {
        user: (tick_delta(prev, now, 0) + tick_delta(prev, now, 3)) as u128,
        system: tick_delta(prev, now, 1) as u128,
        idle: tick_delta(prev, now, 2) as u128,
        total: total_delta(prev, now) as u128,
    }
}

/// Computes the exact split for the cycle from the previous and
/// current raw snapshots. Saturating deltas absorb counter
/// regressions; a stalled provider yields `total == 0`, which callers
/// treat as "leave the previous split in place".
pub fn compute_split(prev: &[u64; 4], now: &[u64; 4]) -> (r: CpuSplit)
    ensures
        r == split_of(prev@, now@),
        r.wf(),
        (r.total == 0) <==> (total_delta(prev@, now@) == 0),
{
    let d_user = now[0].saturating_sub(prev[0]);
    let d_system = now[1].saturating_sub(prev[1]);
    let d_idle = now[2].saturating_sub(prev[2]);
    let d_nice = now[3].saturating_sub(prev[3]);
    CpuSplit {
        user: d_user as u128 + d_nice as u128,
        system: d_system as u128,
        idle: d_idle as u128,
        total: d_user as u128 + d_system as u128 + d_idle as u128 + d_nice as u128,
    }
}

/// The three shares of a well-formed split partition its total
/// exactly: whenever `total > 0`, the user, system and idle
/// percentages sum to precisely 100.
pub proof fn lemma_split_partitions_total(prev: Seq<u64>, now: Seq<u64>)
    requires
        prev.len() == 4,
        now.len() == 4,
    ensures
        split_of(prev, now).user + split_of(prev, now).system + split_of(prev, now).idle
            == split_of(prev, now).total,
{
}

/// At the fixed-point level the rounding of the three shares loses
/// less than three hundredths of a percent: whenever there was tick
/// movement, the displayed percentages sum to 100 within tolerance.
pub proof fn lemma_permyriad_sum(s: CpuSplit)
    requires
        s.wf(),
        s.total > 0,
    ensures
        permyriad(s.user as int, s.total as int) + permyriad(s.system as int, s.total as int)
            + permyriad(s.idle as int, s.total as int) <= 10000,
        permyriad(s.user as int, s.total as int) + permyriad(s.system as int, s.total as int)
            + permyriad(s.idle as int, s.total as int) >= 9998,
{
    let t = s.total as int;
    let a = s.user as int * 10000;
    let b = s.system as int * 10000;
    let c = s.idle as int * 10000;
    vstd::arithmetic::div_mod::lemma_fundamental_div_mod(a, t);
    vstd::arithmetic::div_mod::lemma_fundamental_div_mod(b, t);
    vstd::arithmetic::div_mod::lemma_fundamental_div_mod(c, t);
    vstd::arithmetic::div_mod::lemma_mod_bound(a, t);
    vstd::arithmetic::div_mod::lemma_mod_bound(b, t);
    vstd::arithmetic::div_mod::lemma_mod_bound(c, t);
    let qsum = a / t + b / t + c / t;
    let rsum = a % t + b % t + c % t;
    assert(a + b + c == 10000 * t);
    assert(t * qsum == 10000 * t - rsum) by (nonlinear_arith)
        requires
            a == t * (a / t) + a % t,
            b == t * (b / t) + b % t,
            c == t * (c / t) + c % t,
            a + b + c == 10000 * t,
            qsum == a / t + b / t + c / t,
            rsum == a % t + b % t + c % t,
    ;
    assert(9998 <= qsum <= 10000) by (nonlinear_arith)
        requires
            t > 0,
            t * qsum == 10000 * t - rsum,
            0 <= rsum < 3 * t,
    ;
}

/// No regression in any counter field, however it falls, can make a
/// delta negative: every delta saturates at zero.
pub proof fn lemma_deltas_never_negative(prev: Seq<u64>, now: Seq<u64>, i: int)
    ensures
        tick_delta(prev, now, i) >= 0,
{
}

/// A simultaneous regression (or stall) of every counter yields a
/// zero total delta, the case in which the engine leaves the previous
/// cycle's percentages untouched.
pub proof fn lemma_regression_is_zero_movement(prev: Seq<u64>, now: Seq<u64>)
    requires
        prev.len() == 4,
        now.len() == 4,
        forall|i: int| 0 <= i < 4 ==> now[i] <= prev[i],
    ensures
        total_delta(prev, now) == 0,
        forall|i: int| 0 <= i < 4 ==> tick_delta(prev, now, i) >= 0,
{
}

} // verus!
