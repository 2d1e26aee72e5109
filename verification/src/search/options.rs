//! The tunable options of the search.
use vstd::prelude::*;

use crate::timeman::TimeOptions;

verus! {

/// Every option the protocol can set, with the ranges the option table
/// declares.
#[derive(Copy, Clone, Debug)]
pub struct SearchOptions {
    pub threads: usize,
    pub hash: usize,
    pub asp_window_init: i32,
    pub asp_window_scale_percent: i32,
    pub hard_time_percent: i64,
    pub soft_time_percent: i64,
    pub inc_percent: i64,
    pub nmp_min_depth: i32,
    pub nmp_r_const: i32,
    pub nmp_r_depth_divisor: i32,
    pub rfp_max_depth: i32,
    pub rfp_margin: i32,
    pub iir_min_depth: i32,
    pub iir_tt_depth_margin: i32,
    pub see_pruning_max_depth: i32,
    pub see_capture_margin: i32,
    pub see_quiet_margin: i32,
}

impl SearchOptions {
    /// The time-budget percentages among the options.
    pub fn time_options(&self) -> (r: TimeOptions)
        ensures
            r.hard_time_percent == self.hard_time_percent,
            r.soft_time_percent == self.soft_time_percent,
            r.inc_percent == self.inc_percent,
    {
        TimeOptions {
            hard_time_percent: self.hard_time_percent,
            soft_time_percent: self.soft_time_percent,
            inc_percent: self.inc_percent,
        }
    }
}

impl Default for SearchOptions {
    /// The defaults the engine starts with.
    fn default() -> (r: Self)
        ensures
            r.threads == 1,
            r.hash == 8,
            r.asp_window_init == 40,
            r.asp_window_scale_percent == 200,
            r.hard_time_percent == 50,
            r.soft_time_percent == 5,
            r.inc_percent == 50,
            r.nmp_min_depth == 1,
            r.nmp_r_const == 3,
            r.nmp_r_depth_divisor == 3,
            r.rfp_max_depth == 16,
            r.rfp_margin == 38,
            r.iir_min_depth == 4,
            r.iir_tt_depth_margin == 128,
            r.see_pruning_max_depth == 10,
            r.see_capture_margin == -54,
            r.see_quiet_margin == -45,
    {
        SearchOptions {
            threads: 1,
            hash: 8,
            asp_window_init: 40,
            asp_window_scale_percent: 200,
            hard_time_percent: 50,
            soft_time_percent: 5,
            inc_percent: 50,
            nmp_min_depth: 1,
            nmp_r_const: 3,
            nmp_r_depth_divisor: 3,
            rfp_max_depth: 16,
            rfp_margin: 38,
            iir_min_depth: 4,
            iir_tt_depth_margin: 128,
            see_pruning_max_depth: 10,
            see_capture_margin: -54,
            see_quiet_margin: -45,
        }
    }
}

} // verus!
