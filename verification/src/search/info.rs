//! Per-search bookkeeping: the shared stop flag and node counter, the local
//! node buffer, and the limits of the running search.
//!
//! The stop flag and the global node counter are relaxed atomics shared with
//! the other workers, so nothing is promised about the values read from
//! them; every decision taken on such a read holds for any value.
use core::sync::atomic::{AtomicBool, AtomicU64, Ordering};
use vstd::prelude::*;

use crate::search::options::SearchOptions;
use crate::timeman::TimeManager;

verus! {

/// Nodes counted locally before the shared counter is topped up.
pub const MAX_LOCAL_NODES: u64 = 1024;

/// One worker's handle on the running search.
#[derive(Copy, Clone)]
pub struct SearchInfo<'a> {
    pub time_manager: TimeManager,
    pub stopped: &'a AtomicBool,
    pub global_nodes: &'a AtomicU64,
    pub local_nodes: u64,
    pub node_buffer: u64,
    pub seldepth: usize,
    pub stdout: bool,
    pub options: SearchOptions,
}

impl<'a> SearchInfo<'a> {
    /// A fresh handle over a shared stop flag and node counter, with no
    /// limits and default options.
    pub fn new(stop_signal: &'a AtomicBool, global_nodes: &'a AtomicU64) -> (r: SearchInfo<'a>)
        ensures
            r.local_nodes == 0,
            r.node_buffer == 0,
            r.seldepth == 0,
            r.stdout == true,
            r.time_manager.hard_time is None,
            r.time_manager.soft_time is None,
            r.time_manager.depth_limit is None,
            r.time_manager.node_limit is None,
    {
        SearchInfo {
            time_manager: TimeManager::new(0),
            stopped: stop_signal,
            global_nodes,
            local_nodes: 0,
            node_buffer: 0,
            seldepth: 0,
            stdout: true,
            options: SearchOptions::default(),
        }
    }

    /// Install the search's time manager.
    pub fn time_manager(self, time_manager: TimeManager) -> (r: Self)
        ensures
            r.time_manager == time_manager,
            r.local_nodes == self.local_nodes,
            r.node_buffer == self.node_buffer,
            r.seldepth == self.seldepth,
            r.stdout == self.stdout,
            r.options == self.options,
    {
        let mut r = self;
        r.time_manager = time_manager;
        r
    }

    /// Choose whether search lines are reported.
    pub fn stdout(self, stdout: bool) -> (r: Self)
        ensures
            r.stdout == stdout,
            r.time_manager == self.time_manager,
            r.local_nodes == self.local_nodes,
            r.node_buffer == self.node_buffer,
            r.seldepth == self.seldepth,
            r.options == self.options,
    {
        let mut r = self;
        r.stdout = stdout;
        r
    }

    /// Count one node. Every `MAX_LOCAL_NODES` nodes the buffer is flushed
    /// into the shared counter and the call returns true: the moment for
    /// the main thread to check its clock and node limits.
    pub fn inc_nodes(&mut self) -> (r: bool)
        requires
            old(self).node_buffer < MAX_LOCAL_NODES,
            old(self).local_nodes + MAX_LOCAL_NODES <= u64::MAX,
        ensures
            r == (old(self).node_buffer + 1 >= MAX_LOCAL_NODES),
            r ==> final(self).node_buffer == 0 && final(self).local_nodes == old(
                self,
            ).local_nodes + old(self).node_buffer + 1,
            !r ==> final(self).node_buffer == old(self).node_buffer + 1 && final(self).local_nodes
                == old(self).local_nodes,
            final(self).node_buffer < MAX_LOCAL_NODES,
            final(self).time_manager == old(self).time_manager,
            final(self).seldepth == old(self).seldepth,
            final(self).stdout == old(self).stdout,
            final(self).options == old(self).options,
    {
        self.node_buffer = self.node_buffer + 1;
        if self.node_buffer >= MAX_LOCAL_NODES {
            let _ = self.global_nodes.fetch_add(self.node_buffer, Ordering::Relaxed);
            self.local_nodes = self.local_nodes + self.node_buffer;
            self.node_buffer = 0;
            true
        } else {
            false
        }
    }

    /// The shared node count plus this worker's unflushed buffer. The shared
    /// counter moves under other workers' hands, so only the buffer's share
    /// is promised.
    pub fn global_node_count(&self) -> (r: u64)
        ensures
            r >= self.node_buffer,
    {
        let shared: u64 = self.global_nodes.load(Ordering::Relaxed);
        shared.saturating_add(self.node_buffer)
    }

    /// Nodes this worker has searched.
    pub fn local_node_count(&self) -> (r: u64)
        requires
            self.local_nodes + self.node_buffer <= u64::MAX,
        ensures
            r == self.local_nodes + self.node_buffer,
    {
        self.local_nodes + self.node_buffer
    }

    /// Whether some worker has signalled the stop. The flag is shared, so
    /// any answer may already be stale; a true answer is acted on, a false
    /// one is re-checked at the next node.
    pub fn stopped(&self) -> bool {
        self.stopped.load(Ordering::Relaxed)
    }

    /// Signal every worker to unwind.
    pub fn stop(&self) {
        self.stopped.store(true, Ordering::Relaxed);
    }
}

/// The score returned for a drawn line: plain zero, keeping single-thread
/// searches deterministic.
pub fn randomize_draw_score(info: &SearchInfo) -> (r: i32)
    ensures
        r == 0,
{
    let _ = info;
    0
}

} // verus!
