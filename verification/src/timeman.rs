//! Search time budgeting: clock, node and depth limits derived from the
//! game clock, with soft and hard cutoffs.
//!
//! The manager never reads a clock itself: callers pass the current time as
//! milliseconds on a monotonic clock, and every predicate is a pure function
//! of the manager and that reading.
use vstd::prelude::*;

use crate::types::{tdiv, tdiv_i64};

verus! {

/// Percentages governing how much of the clock a search may spend.
#[derive(Copy, Clone, Debug)]
pub struct TimeOptions {
    /// Percent of the remaining time the search may ever use.
    pub hard_time_percent: i64,
    /// Percent of the remaining time after which no new depth starts.
    pub soft_time_percent: i64,
    /// Percent of the increment counted as part of the remaining time.
    pub inc_percent: i64,
}

/// The game clock as the protocol reports it, in milliseconds.
#[derive(Copy, Clone, Debug)]
pub struct TimeData {
    pub stm_time: i64,
    pub ntm_time: i64,
    pub stm_inc: i64,
    pub ntm_inc: i64,
    pub movestogo: Option<usize>,
}

impl Default for TimeData {
    /// A zeroed clock.
    fn default() -> (r: Self)
        ensures
            r.stm_time == 0,
            r.ntm_time == 0,
            r.stm_inc == 0,
            r.ntm_inc == 0,
            r.movestogo is None,
    {
        TimeData { stm_time: 0, ntm_time: 0, stm_inc: 0, ntm_inc: 0, movestogo: None }
    }
}

/// Bound on the clock values (milliseconds) the manager accepts; far beyond
/// any real game clock, and small enough that the percentage arithmetic
/// cannot overflow.
pub const MAX_CLOCK_MS: i64 = 0x10_0000_0000;

/// The time, node and depth limits of one search.
#[derive(Copy, Clone, Debug)]
pub struct TimeManager {
    pub start_time: u64,
    pub time_data: TimeData,
    pub hard_time: Option<u64>,
    pub soft_time: Option<u64>,
    pub depth_limit: Option<usize>,
    pub node_limit: Option<u64>,
}

impl TimeManager {
    /// A manager with no limits, started at clock reading `start_time`.
    pub fn new(start_time: u64) -> (r: Self)
        ensures
            r.start_time == start_time,
            r.hard_time is None,
            r.soft_time is None,
            r.depth_limit is None,
            r.node_limit is None,
    {
        TimeManager {
            start_time,
            time_data: TimeData::default(),
            hard_time: None,
            soft_time: None,
            depth_limit: None,
            node_limit: None,
        }
    }

    /// The hard budget for a clock: the configured percentages of time and
    /// increment, never below a tenth of the remaining time, never negative.
    pub open spec fn spec_hard_budget(data: TimeData, options: TimeOptions) -> int {
        let base = tdiv(data.stm_time * options.hard_time_percent + data.stm_inc
            * options.inc_percent, 100);
        let floor10 = tdiv(data.stm_time as int, 10);
        let m = if base >= floor10 {
            base
        } else {
            floor10
        };
        if m >= 0 {
            m
        } else {
            0
        }
    }

    /// The soft budget for a clock: the configured percentages, never
    /// negative; with `movestogo` set, an equal share of the remaining time.
    pub open spec fn spec_soft_budget(data: TimeData, options: TimeOptions) -> int {
        if data.movestogo is Some {
            let share = tdiv(data.stm_time as int, data.movestogo->0 as int);
            if share >= 0 {
                share
            } else {
                0
            }
        } else {
            let base = tdiv(data.stm_time * options.soft_time_percent + data.stm_inc
                * options.inc_percent, 100);
            if base >= 0 {
                base
            } else {
                0
            }
        }
    }

    /// Install clock-derived hard and soft limits.
    pub fn time_limited(self, data: TimeData, options: TimeOptions) -> (r: Self)
        requires
            -MAX_CLOCK_MS <= data.stm_time <= MAX_CLOCK_MS,
            -MAX_CLOCK_MS <= data.stm_inc <= MAX_CLOCK_MS,
            1 <= options.hard_time_percent <= 100,
            1 <= options.soft_time_percent <= 100,
            1 <= options.inc_percent <= 100,
            data.movestogo is Some ==> data.movestogo->0 > 0,
        ensures
            r.hard_time == Some(Self::spec_hard_budget(data, options) as u64),
            r.soft_time == Some(Self::spec_soft_budget(data, options) as u64),
            r.start_time == self.start_time,
            r.depth_limit == self.depth_limit,
            r.node_limit == self.node_limit,
            r.time_data == data,
    {
        proof {
            lemma_budget_in_range(data, options);
        }
        let mut r = self;
        r.time_data = data;

        let base: i64 = tdiv_i64(data.stm_time * options.hard_time_percent + data.stm_inc
            * options.inc_percent, 100);
        let floor10: i64 = tdiv_i64(data.stm_time, 10);
        let mut hard: i64 = if base >= floor10 {
            base
        } else {
            floor10
        };
        if hard < 0 {
            hard = 0;
        }
        r.hard_time = Some(hard as u64);

        let mut soft: i64 = if let Some(mtg) = data.movestogo {
            if data.stm_time >= 0 {
                let q: u64 = (data.stm_time as u64) / (mtg as u64);
                q as i64
            } else {
                let n: u64 = (-data.stm_time) as u64;
                let q: u64 = n / (mtg as u64);
                assert(q <= n);
                -(q as i64)
            }
        } else {
            tdiv_i64(data.stm_time * options.soft_time_percent + data.stm_inc
                * options.inc_percent, 100)
        };
        if soft < 0 {
            soft = 0;
        }
        r.soft_time = Some(soft as u64);
        r
    }

    /// A fixed move time overrides the clock arithmetic: it becomes the hard
    /// limit and the soft limit is dropped.
    pub fn fixed_time_millis(self, millis: Option<i64>) -> (r: Self)
        requires
            millis is Some ==> millis->0 >= 0,
        ensures
            millis is Some ==> r.hard_time == Some(millis->0 as u64) && r.soft_time is None,
            millis is None ==> r.hard_time == self.hard_time && r.soft_time == self.soft_time,
            r.start_time == self.start_time,
            r.depth_limit == self.depth_limit,
            r.node_limit == self.node_limit,
            r.time_data == self.time_data,
    {
        let mut r = self;
        if let Some(ms) = millis {
            r.hard_time = Some(ms as u64);
            r.soft_time = None;
        }
        r
    }

    /// An infinite search drops both time limits.
    pub fn infinite(self, infinite: bool) -> (r: Self)
        ensures
            infinite ==> r.hard_time is None && r.soft_time is None,
            !infinite ==> r.hard_time == self.hard_time && r.soft_time == self.soft_time,
            r.start_time == self.start_time,
            r.depth_limit == self.depth_limit,
            r.node_limit == self.node_limit,
            r.time_data == self.time_data,
    {
        let mut r = self;
        if infinite {
            r.hard_time = None;
            r.soft_time = None;
        }
        r
    }

    /// A fixed depth limit; setting one drops both time limits.
    pub fn fixed_depth(self, depth: Option<usize>) -> (r: Self)
        ensures
            r.depth_limit == depth,
            depth is Some ==> r.hard_time is None && r.soft_time is None,
            depth is None ==> r.hard_time == self.hard_time && r.soft_time == self.soft_time,
            r.start_time == self.start_time,
            r.node_limit == self.node_limit,
            r.time_data == self.time_data,
    {
        let mut r = self;
        r.depth_limit = depth;
        if depth.is_some() {
            r.soft_time = None;
            r.hard_time = None;
        }
        r
    }

    /// A fixed node limit; setting one drops both time limits.
    pub fn fixed_nodes(self, nodes: Option<u64>) -> (r: Self)
        ensures
            r.node_limit == nodes,
            nodes is Some ==> r.hard_time is None && r.soft_time is None,
            nodes is None ==> r.hard_time == self.hard_time && r.soft_time == self.soft_time,
            r.start_time == self.start_time,
            r.depth_limit == self.depth_limit,
            r.time_data == self.time_data,
    {
        let mut r = self;
        r.node_limit = nodes;
        if nodes.is_some() {
            r.soft_time = None;
            r.hard_time = None;
        }
        r
    }

    /// Milliseconds elapsed since the manager was started, given the current
    /// reading `now` of the same clock.
    pub fn elapsed(&self, now: u64) -> (r: u64)
        ensures
            now >= self.start_time ==> r == now - self.start_time,
            now < self.start_time ==> r == 0,
    {
        if now >= self.start_time {
            now - self.start_time
        } else {
            0
        }
    }

    /// Whether a configured depth limit has been reached at `depth`.
    pub fn depth_limit_reached(&self, depth: i32) -> (r: bool)
        requires
            depth >= 0,
        ensures
            r == (self.depth_limit is Some && depth as int >= self.depth_limit->0 as int),
    {
        if let Some(limit) = self.depth_limit {
            depth as usize >= limit
        } else {
            false
        }
    }

    /// Whether a configured node limit has been reached at `nodes` nodes.
    pub fn node_limit_reached(&self, nodes: u64) -> (r: bool)
        ensures
            r == (self.node_limit is Some && nodes >= self.node_limit->0),
    {
        if let Some(limit) = self.node_limit {
            nodes >= limit
        } else {
            false
        }
    }

    /// Whether the soft time budget is spent at clock reading `now`.
    pub fn soft_time_limit_reached(&self, now: u64) -> (r: bool)
        ensures
            r == (self.soft_time is Some && self.spec_elapsed(now) >= self.soft_time->0),
    {
        if let Some(limit) = self.soft_time {
            self.elapsed(now) >= limit
        } else {
            false
        }
    }

    /// Whether the hard time budget is spent at clock reading `now`.
    pub fn hard_time_limit_reached(&self, now: u64) -> (r: bool)
        ensures
            r == (self.hard_time is Some && self.spec_elapsed(now) >= self.hard_time->0),
    {
        if let Some(limit) = self.hard_time {
            self.elapsed(now) >= limit
        } else {
            false
        }
    }

    /// What `elapsed` returns.
    pub open spec fn spec_elapsed(&self, now: u64) -> int {
        if now >= self.start_time {
            now - self.start_time
        } else {
            0
        }
    }
}

/// The clock budgets stay within machine range for clocks within
/// `MAX_CLOCK_MS` and percentages up to 100.
proof fn lemma_budget_in_range(data: TimeData, options: TimeOptions)
    requires
        -MAX_CLOCK_MS <= data.stm_time <= MAX_CLOCK_MS,
        -MAX_CLOCK_MS <= data.stm_inc <= MAX_CLOCK_MS,
        1 <= options.hard_time_percent <= 100,
        1 <= options.soft_time_percent <= 100,
        1 <= options.inc_percent <= 100,
    ensures
        -100 * MAX_CLOCK_MS <= data.stm_time * options.hard_time_percent <= 100 * MAX_CLOCK_MS,
        -100 * MAX_CLOCK_MS <= data.stm_time * options.soft_time_percent <= 100 * MAX_CLOCK_MS,
        -100 * MAX_CLOCK_MS <= data.stm_inc * options.inc_percent <= 100 * MAX_CLOCK_MS,
        -200 * MAX_CLOCK_MS <= data.stm_time * options.hard_time_percent + data.stm_inc
            * options.inc_percent <= 200 * MAX_CLOCK_MS,
        -200 * MAX_CLOCK_MS <= data.stm_time * options.soft_time_percent + data.stm_inc
            * options.inc_percent <= 200 * MAX_CLOCK_MS,
{
    assert(-100 * MAX_CLOCK_MS <= data.stm_time * options.hard_time_percent <= 100 * MAX_CLOCK_MS)
        by (nonlinear_arith)
        requires
            -MAX_CLOCK_MS <= data.stm_time <= MAX_CLOCK_MS,
            1 <= options.hard_time_percent <= 100,
    ;
    assert(-100 * MAX_CLOCK_MS <= data.stm_time * options.soft_time_percent <= 100 * MAX_CLOCK_MS)
        by (nonlinear_arith)
        requires
            -MAX_CLOCK_MS <= data.stm_time <= MAX_CLOCK_MS,
            1 <= options.soft_time_percent <= 100,
    ;
    assert(-100 * MAX_CLOCK_MS <= data.stm_inc * options.inc_percent <= 100 * MAX_CLOCK_MS)
        by (nonlinear_arith)
        requires
            -MAX_CLOCK_MS <= data.stm_inc <= MAX_CLOCK_MS,
            1 <= options.inc_percent <= 100,
    ;
}

} // verus!
