//! Application state and the per-cycle sampling orchestrator.
//!
//! [`App`] owns the metric state; a host loop samples the raw inputs
//! (tick counters, process inventory, memory and thread totals) and
//! hands them to [`App::tick`] once per cycle.

use std::collections::VecDeque;
use vstd::prelude::*;

use crate::cpu::CpuSplit;
use crate::cpu::compute_split;
use crate::cpu::permyriad;
use crate::cpu::split_of;
use crate::cpu::total_delta;
use crate::history::push_bounded;
use crate::history::push_bounded_spec;
use crate::procs::ProcessInfo;
use crate::procs::rank_processes;
use crate::procs::ranked;
use crate::procs::sorted_desc;

verus! {

/// Maximum number of data-points kept per history buffer.
pub const HISTORY_LEN: usize = 180;

/// Sliding-window width of the chart, in cycles.
pub const WINDOW: u64 = 180;

/// The split that one cycle yields: with both snapshots at hand and
/// real tick movement, the exact delta split; in every other case
/// (first cycle, failed sample, stalled counters) the previous split,
/// unchanged.
pub open spec fn next_split(
    prev: Option<[u64; 4]>,
    now: Option<[u64; 4]>,
    cur: CpuSplit,
) -> CpuSplit {
    match (prev, now) {
        (Some(p), Some(n)) => if total_delta(p@, n@) > 0 {
            split_of(p@, n@)
        } else {
            cur
        },
        _ => cur,
    }
}

/// A cycle whose deltas are all zero — stalled counters, or a
/// simultaneous regression of every field — leaves the previous
/// percentages untouched.
pub proof fn lemma_stalled_cycle_keeps_split(prev: [u64; 4], now: [u64; 4], cur: CpuSplit)
    requires
        total_delta(prev@, now@) == 0,
    ensures
        next_split(Some(prev), Some(now), cur) == cur,
{
}

/// How a re-rank reconciles the highlighted row with the stored
/// selection identity: the row of the first entry carrying the
/// selected id, none while that process is gone, and the previous row
/// when no identity is stored.
pub open spec fn reconciled(
    list: Seq<ProcessInfo>,
    pid_opt: Option<u32>,
    old_idx: Option<usize>,
    new_idx: Option<usize>,
) -> bool {
    match pid_opt {
        None => new_idx == old_idx,
        Some(pid) => match new_idx {
            Some(i) => i < list.len() && list[i as int].pid == pid && (forall|k: int|
                0 <= k < i ==> list[k].pid != pid),
            None => forall|k: int| 0 <= k < list.len() ==> list[k].pid != pid,
        },
    }
}

/// Index reached by moving the current row by `offset`, clamped to
/// the list.
pub open spec fn clamped(cur: int, offset: int, len: int) -> int
    recommends
        len > 0,
{
    if cur + offset <= 0 {
        0
    } else if cur + offset >= len {
        len - 1
    } else {
        cur + offset
    }
}

/// Central application state: the latest CPU split, both history
/// buffers, the ranked process list, aggregate counters, and the
/// selection.
#[derive(Debug)]
pub struct App {
    /// Raw tick snapshot kept from the previous cycle.
    pub prev_ticks: Option<[u64; 4]>,
    /// Number of completed sampling cycles.
    pub tick_count: u64,
    /// CPU usage split of the latest cycle with tick movement.
    pub split: CpuSplit,
    /// Time-series of `(cycle, system permyriad)` for the chart.
    pub system_history: VecDeque<(u64, u64)>,
    /// Time-series of `(cycle, user permyriad)` for the chart.
    pub user_history: VecDeque<(u64, u64)>,
    /// Total thread count across all processes.
    pub thread_count: usize,
    /// Total physical memory in bytes.
    pub total_memory: u64,
    /// Used physical memory in bytes.
    pub used_memory: u64,
    /// Process list sorted by descending CPU usage.
    pub processes: Vec<ProcessInfo>,
    /// Row currently highlighted; recomputed after every re-rank.
    pub selected_index: Option<usize>,
    /// Identity of the selected process; survives re-ranking and is
    /// changed only by explicit navigation.
    pub selected_pid: Option<u32>,
    /// Whether the event loop should keep running.
    pub running: bool,
}

impl App {
    /// The state invariant: a well-formed split, bounded histories,
    /// and a ranked process list.
    pub open spec fn wf(self) -> bool {
        &&& self.split.wf()
        &&& self.system_history@.len() <= HISTORY_LEN
        &&& self.user_history@.len() <= HISTORY_LEN
        &&& sorted_desc(self.processes@)
    }

    /// Creates the initial state: zero percentages, empty histories,
    /// no processes, the first row preselected, and whatever tick
    /// snapshot the sampler could provide at startup.
    pub fn new(prev_ticks: Option<[u64; 4]>) -> (r: App)
        ensures
            r.prev_ticks == prev_ticks,
            r.tick_count == 0,
            r.split == (CpuSplit { user: 0, system: 0, idle: 0, total: 0 }),
            r.system_history@ == Seq::<(u64, u64)>::empty(),
            r.user_history@ == Seq::<(u64, u64)>::empty(),
            r.thread_count == 0,
            r.total_memory == 0,
            r.used_memory == 0,
            r.processes@ == Seq::<ProcessInfo>::empty(),
            r.selected_index == Some(0usize),
            r.selected_pid == Option::<u32>::None,
            r.running == true,
            r.wf(),
    {
        App {
            prev_ticks,
            tick_count: 0,
            split: CpuSplit::zero(),
            system_history: VecDeque::with_capacity(HISTORY_LEN),
            user_history: VecDeque::with_capacity(HISTORY_LEN),
            thread_count: 0,
            total_memory: 0,
            used_memory: 0,
            processes: Vec::new(),
            selected_index: Some(0),
            selected_pid: None,
            running: true,
        }
    }

    /// Advances state by one cycle from sampled inputs: CPU split and
    /// histories, ranked processes, memory and thread totals, and the
    /// reconciled selection.
    pub fn tick(
        &mut self,
        now_ticks: Option<[u64; 4]>,
        procs: Vec<ProcessInfo>,
        total_memory: u64,
        used_memory: u64,
        thread_count: usize,
    )
        requires
            old(self).split.wf(),
            old(self).tick_count < u64::MAX,
        ensures
            final(self).split == next_split(old(self).prev_ticks, now_ticks, old(self).split),
            final(self).split.wf(),
            final(self).prev_ticks == (match now_ticks {
                Some(_) => now_ticks,
                None => old(self).prev_ticks,
            }),
            final(self).system_history@ == push_bounded_spec(
                old(self).system_history@,
                (old(self).tick_count, permyriad(
                    final(self).split.system as int,
                    final(self).split.total as int,
                ) as u64),
                HISTORY_LEN as nat,
            ),
            final(self).user_history@ == push_bounded_spec(
                old(self).user_history@,
                (old(self).tick_count, permyriad(
                    final(self).split.user as int,
                    final(self).split.total as int,
                ) as u64),
                HISTORY_LEN as nat,
            ),
            ranked(procs@, final(self).processes@),
            final(self).total_memory == total_memory,
            final(self).used_memory == used_memory,
            final(self).thread_count == thread_count,
            final(self).tick_count == old(self).tick_count + 1,
            final(self).selected_pid == old(self).selected_pid,
            reconciled(
                final(self).processes@,
                old(self).selected_pid,
                old(self).selected_index,
                final(self).selected_index,
            ),
            final(self).running == old(self).running,
            old(self).wf() ==> final(self).wf(),
    {
        self.update_cpu_split(now_ticks);
        self.update_processes(procs, total_memory, used_memory);
        self.thread_count = thread_count;
        self.tick_count = self.tick_count + 1;
    }

    /// Moves the selection by `offset` rows, clamped to the list, and
    /// records the identity of the newly highlighted process. This is
    /// the only operation that changes the stored identity.
    pub fn select_process(&mut self, offset: i32)
        ensures
            old(self).processes@.len() == 0 ==> *final(self) == *old(self),
            old(self).processes@.len() > 0 ==> {
                let cur = match old(self).selected_index {
                    Some(i) => i as int,
                    None => 0int,
                };
                let nx = clamped(cur, offset as int, old(self).processes@.len() as int);
                &&& final(self).selected_index == Some(nx as usize)
                &&& final(self).selected_pid == Some(old(self).processes@[nx].pid)
            },
            final(self).processes == old(self).processes,
            final(self).split == old(self).split,
            final(self).system_history == old(self).system_history,
            final(self).user_history == old(self).user_history,
            final(self).prev_ticks == old(self).prev_ticks,
            final(self).tick_count == old(self).tick_count,
            final(self).thread_count == old(self).thread_count,
            final(self).total_memory == old(self).total_memory,
            final(self).used_memory == old(self).used_memory,
            final(self).running == old(self).running,
    {
        let len = self.processes.len();
        if len == 0 {
            return ;
        }
        let cur: i128 = match self.selected_index {
            Some(i) => i as i128,
            None => 0,
        };
        let target = cur + offset as i128;
        let next: usize = if target <= 0 {
            0
        } else if target >= len as i128 {
            len - 1
        } else {
            target as usize
        };
        self.selected_index = Some(next);
        self.selected_pid = Some(self.processes[next].pid);
    }

    /// Returns `[start, end]` x-axis bounds for the CPU chart: the
    /// window stays anchored at `[0, WINDOW]` until enough cycles
    /// exist, then slides forward with the cycle counter.
    pub fn history_bounds(&self) -> (r: [u64; 2])
        ensures
            r@[1] == (if self.tick_count >= WINDOW {
                self.tick_count
            } else {
                WINDOW
            }),
            r@[0] == r@[1] - WINDOW,
    {
        let end = if self.tick_count >= WINDOW {
            self.tick_count
        } else {
            WINDOW
        };
        [end - WINDOW, end]
    }

    /// Computes the cycle's CPU split from tick deltas and appends
    /// one point per history. A failed sample or stalled counters
    /// leave the split untouched; a present sample always becomes the
    /// next cycle's "previous" snapshot.
    pub fn update_cpu_split(&mut self, now: Option<[u64; 4]>)
        requires
            old(self).split.wf(),
        ensures
            final(self).split == next_split(old(self).prev_ticks, now, old(self).split),
            final(self).split.wf(),
            final(self).prev_ticks == (match now {
                Some(_) => now,
                None => old(self).prev_ticks,
            }),
            final(self).system_history@ == push_bounded_spec(
                old(self).system_history@,
                (old(self).tick_count, permyriad(
                    final(self).split.system as int,
                    final(self).split.total as int,
                ) as u64),
                HISTORY_LEN as nat,
            ),
            final(self).user_history@ == push_bounded_spec(
                old(self).user_history@,
                (old(self).tick_count, permyriad(
                    final(self).split.user as int,
                    final(self).split.total as int,
                ) as u64),
                HISTORY_LEN as nat,
            ),
            final(self).tick_count == old(self).tick_count,
            final(self).processes == old(self).processes,
            final(self).selected_index == old(self).selected_index,
            final(self).selected_pid == old(self).selected_pid,
            final(self).thread_count == old(self).thread_count,
            final(self).total_memory == old(self).total_memory,
            final(self).used_memory == old(self).used_memory,
            final(self).running == old(self).running,
    {
        if let Some(n) = now {
            if let Some(p) = self.prev_ticks {
                let s = compute_split(&p, &n);
                if s.total > 0 {
                    self.split = s;
                }
            }
            self.prev_ticks = Some(n);
        }
        let t = self.tick_count;
        let spm = self.split.system_permyriad();
        let upm = self.split.user_permyriad();
        push_bounded(&mut self.system_history, (t, spm), HISTORY_LEN);
        push_bounded(&mut self.user_history, (t, upm), HISTORY_LEN);
    }

    /// Installs the freshly ranked inventory together with the memory
    /// totals of the same refresh, then re-derives the highlighted
    /// row from the stored selection identity.
    pub fn update_processes(
        &mut self,
        procs: Vec<ProcessInfo>,
        total_memory: u64,
        used_memory: u64,
    )
        ensures
            ranked(procs@, final(self).processes@),
            final(self).total_memory == total_memory,
            final(self).used_memory == used_memory,
            final(self).selected_pid == old(self).selected_pid,
            reconciled(
                final(self).processes@,
                old(self).selected_pid,
                old(self).selected_index,
                final(self).selected_index,
            ),
            final(self).split == old(self).split,
            final(self).system_history == old(self).system_history,
            final(self).user_history == old(self).user_history,
            final(self).prev_ticks == old(self).prev_ticks,
            final(self).tick_count == old(self).tick_count,
            final(self).thread_count == old(self).thread_count,
            final(self).running == old(self).running,
    {
        self.total_memory = total_memory;
        self.used_memory = used_memory;
        self.processes = rank_processes(procs);
        self.restore_selection();
    }

    /// Re-derives the highlighted row from the stored selection
    /// identity after a re-rank: the entity, not the row, stays
    /// selected, and a vanished entity leaves no row highlighted
    /// while its identity is kept for possible reappearance.
    pub fn restore_selection(&mut self)
        ensures
            reconciled(
                final(self).processes@,
                old(self).selected_pid,
                old(self).selected_index,
                final(self).selected_index,
            ),
            final(self).selected_pid == old(self).selected_pid,
            final(self).processes == old(self).processes,
            final(self).split == old(self).split,
            final(self).system_history == old(self).system_history,
            final(self).user_history == old(self).user_history,
            final(self).prev_ticks == old(self).prev_ticks,
            final(self).tick_count == old(self).tick_count,
            final(self).thread_count == old(self).thread_count,
            final(self).total_memory == old(self).total_memory,
            final(self).used_memory == old(self).used_memory,
            final(self).running == old(self).running,
    {
        let pid = match self.selected_pid {
            Some(p) => p,
            None => {
                return ;
            },
        };
        let mut found: Option<usize> = None;
        let mut i: usize = 0;
        while i < self.processes.len()
            invariant
                i <= self.processes@.len(),
                match found {
                    Some(f) => f < i && self.processes@[f as int].pid == pid && (forall|k: int|
                        0 <= k < f ==> self.processes@[k].pid != pid),
                    None => forall|k: int| 0 <= k < i ==> self.processes@[k].pid != pid,
                },
            decreases self.processes@.len() - i,
        {
            if found.is_none() && self.processes[i].pid == pid {
                found = Some(i);
            }
            i = i + 1;
        }
        self.selected_index = found;
    }
}

} // verus!
