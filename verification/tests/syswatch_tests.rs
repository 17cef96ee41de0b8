//! End-to-end tests of the sampler core: delta engine, bounded
//! histories, ranking, selection continuity, and display formatting.

use std::collections::VecDeque;

use syswatch::app::App;
use syswatch::cpu::{compute_split, CpuSplit};
use syswatch::fmt::{fmt_bytes, fmt_thousands, to_decimal};
use syswatch::history::push_bounded;
use syswatch::procs::{rank_processes, ProcessInfo};

fn proc(pid: u32, name: &str, cpu_usage: u64, memory: u64) -> ProcessInfo {
    ProcessInfo { pid, name: name.to_string(), cpu_usage, memory }
}

#[test]
fn delta_scenario_exact() {
    // previous [100,50,800,0], current [110,55,850,0]:
    // deltas [10,5,50,0], total 65.
    let s = compute_split(&[100, 50, 800, 0], &[110, 55, 850, 0]);
    assert_eq!(s.user, 10);
    assert_eq!(s.system, 5);
    assert_eq!(s.idle, 50);
    assert_eq!(s.total, 65);
    // user ~= 15.38%, system ~= 7.69%, idle ~= 76.92%
    assert_eq!(s.user_permyriad(), 1538);
    assert_eq!(s.system_permyriad(), 769);
    assert_eq!(s.idle_permyriad(), 7692);
    let user_pct = s.user as f64 / s.total as f64 * 100.0;
    let system_pct = s.system as f64 / s.total as f64 * 100.0;
    let idle_pct = s.idle as f64 / s.total as f64 * 100.0;
    assert!((user_pct - 15.38).abs() < 0.01);
    assert!((system_pct - 7.69).abs() < 0.01);
    assert!((idle_pct - 76.92).abs() < 0.01);
    assert!((user_pct + system_pct + idle_pct - 100.0).abs() < 1e-9);
}

#[test]
fn permyriad_sum_tolerance() {
    let s = compute_split(&[100, 50, 800, 0], &[110, 55, 850, 0]);
    let sum = s.user_permyriad() + s.system_permyriad() + s.idle_permyriad();
    assert!((9998..=10000).contains(&sum));
    let s2 = compute_split(&[0, 0, 0, 0], &[1, 1, 1, 0]);
    let sum2 = s2.user_permyriad() + s2.system_permyriad() + s2.idle_permyriad();
    assert!((9998..=10000).contains(&sum2));
}

#[test]
fn tick_updates_split_and_history() {
    let mut app = App::new(Some([100, 50, 800, 0]));
    app.tick(Some([110, 55, 850, 0]), Vec::new(), 64, 32, 7);
    assert_eq!(app.split.user, 10);
    assert_eq!(app.split.total, 65);
    assert_eq!(app.total_memory, 64);
    assert_eq!(app.used_memory, 32);
    assert_eq!(app.thread_count, 7);
    assert_eq!(app.tick_count, 1);
    assert_eq!(app.prev_ticks, Some([110, 55, 850, 0]));
    assert_eq!(app.system_history, VecDeque::from(vec![(0, 769)]));
    assert_eq!(app.user_history, VecDeque::from(vec![(0, 1538)]));
}

#[test]
fn missing_sample_keeps_split_but_appends_history() {
    let mut app = App::new(Some([100, 50, 800, 0]));
    app.tick(Some([110, 55, 850, 0]), Vec::new(), 0, 0, 0);
    let before = app.split;
    app.tick(None, Vec::new(), 0, 0, 0);
    assert_eq!(app.split, before);
    assert_eq!(app.prev_ticks, Some([110, 55, 850, 0]));
    assert_eq!(app.system_history, VecDeque::from(vec![(0, 769), (1, 769)]));
    assert_eq!(app.user_history, VecDeque::from(vec![(0, 1538), (1, 1538)]));
}

#[test]
fn first_cycle_stores_previous_only() {
    let mut app = App::new(None);
    app.tick(Some([5, 5, 5, 5]), Vec::new(), 0, 0, 0);
    assert_eq!(app.split, CpuSplit { user: 0, system: 0, idle: 0, total: 0 });
    assert_eq!(app.prev_ticks, Some([5, 5, 5, 5]));
    // The next cycle has a previous snapshot and computes a real split.
    app.tick(Some([6, 5, 8, 5]), Vec::new(), 0, 0, 0);
    assert_eq!(app.split, CpuSplit { user: 1, system: 0, idle: 3, total: 4 });
}

#[test]
fn stalled_counters_keep_percentages() {
    let mut app = App::new(Some([100, 50, 800, 0]));
    app.tick(Some([110, 55, 850, 0]), Vec::new(), 0, 0, 0);
    let before = app.split;
    app.tick(Some([110, 55, 850, 0]), Vec::new(), 0, 0, 0);
    assert_eq!(app.split, before);
}

#[test]
fn regression_in_all_fields_is_zero_movement() {
    let mut app = App::new(Some([100, 50, 800, 10]));
    app.tick(Some([110, 55, 850, 10]), Vec::new(), 0, 0, 0);
    let before = app.split;
    // Every counter moves backwards: treated as a stall, not a wrap.
    app.tick(Some([90, 40, 700, 5]), Vec::new(), 0, 0, 0);
    assert_eq!(app.split, before);
    assert_eq!(app.prev_ticks, Some([90, 40, 700, 5]));
}

#[test]
fn regression_in_one_field_saturates_to_zero() {
    let s = compute_split(&[100, 50, 800, 0], &[90, 55, 850, 0]);
    assert_eq!(s.user, 0);
    assert_eq!(s.system, 5);
    assert_eq!(s.idle, 50);
    assert_eq!(s.total, 55);
}

#[test]
fn push_bounded_evicts_oldest() {
    let mut buf: VecDeque<u32> = VecDeque::new();
    push_bounded(&mut buf, 1, 2);
    push_bounded(&mut buf, 2, 2);
    assert_eq!(buf, VecDeque::from(vec![1, 2]));
    push_bounded(&mut buf, 3, 2);
    assert_eq!(buf, VecDeque::from(vec![2, 3]));
}

#[test]
fn history_window_keeps_most_recent() {
    // capacity 5, appending 5 + 3 items: the last five remain in order.
    let mut buf: VecDeque<u32> = VecDeque::new();
    for v in 0..8u32 {
        push_bounded(&mut buf, v, 5);
    }
    assert_eq!(buf, VecDeque::from(vec![3, 4, 5, 6, 7]));
}

#[test]
fn app_history_caps_at_capacity() {
    let mut app = App::new(Some([0, 0, 0, 0]));
    for i in 0..200u64 {
        app.tick(Some([i + 1, 0, 0, 0]), Vec::new(), 0, 0, 0);
    }
    assert_eq!(app.system_history.len(), 180);
    assert_eq!(app.user_history.len(), 180);
    // The oldest surviving point is from cycle 20.
    assert_eq!(app.system_history.front(), Some(&(20, 0)));
    assert_eq!(app.user_history.front(), Some(&(20, 10000)));
    assert_eq!(app.user_history.back(), Some(&(199, 10000)));
}

#[test]
fn ranked_list_is_sorted_and_complete() {
    let inventory = vec![
        proc(1, "idle", 12, 10),
        proc(2, "busy", 950, 20),
        proc(3, "mid", 430, 30),
        proc(4, "zero", 0, 40),
        proc(5, "high", 990, 50),
    ];
    let ranked = rank_processes(inventory);
    assert_eq!(ranked.len(), 5);
    for w in ranked.windows(2) {
        assert!(w[0].cpu_usage >= w[1].cpu_usage);
    }
    let pids: Vec<u32> = ranked.iter().map(|p| p.pid).collect();
    assert_eq!(pids, vec![5, 2, 3, 1, 4]);
}

#[test]
fn ranking_is_stable_for_ties() {
    let inventory = vec![
        proc(10, "a", 500, 0),
        proc(11, "b", 700, 0),
        proc(12, "c", 500, 0),
        proc(13, "d", 500, 0),
    ];
    let ranked = rank_processes(inventory);
    let pids: Vec<u32> = ranked.iter().map(|p| p.pid).collect();
    assert_eq!(pids, vec![11, 10, 12, 13]);
}

#[test]
fn rank_empty_inventory() {
    let ranked = rank_processes(Vec::new());
    assert!(ranked.is_empty());
}

#[test]
fn navigate_clamps_at_both_ends() {
    let mut app = App::new(None);
    let inventory: Vec<ProcessInfo> =
        (0..5).map(|i| proc(100 + i, "p", 500 - i as u64, 0)).collect();
    app.tick(None, inventory, 0, 0, 0);
    // Walk to the last row, then try to move past it.
    app.select_process(4);
    assert_eq!(app.selected_index, Some(4));
    app.select_process(1);
    assert_eq!(app.selected_index, Some(4));
    assert_eq!(app.selected_pid, Some(104));
    // From index 2, a large negative offset clamps to 0.
    app.select_process(-2);
    assert_eq!(app.selected_index, Some(2));
    app.select_process(-10);
    assert_eq!(app.selected_index, Some(0));
    assert_eq!(app.selected_pid, Some(100));
}

#[test]
fn navigate_on_empty_list_is_noop() {
    let mut app = App::new(None);
    app.select_process(3);
    assert_eq!(app.selected_index, Some(0));
    assert_eq!(app.selected_pid, None);
}

#[test]
fn selection_follows_entity_across_rerank() {
    let mut app = App::new(None);
    let first = vec![
        proc(1, "a", 900, 0),
        proc(2, "b", 800, 0),
        proc(3, "c", 700, 0),
        proc(7, "x", 600, 0),
        proc(5, "e", 500, 0),
    ];
    app.tick(None, first, 0, 0, 0);
    // Select the entity with id 7, currently at position 3.
    app.select_process(3);
    assert_eq!(app.selected_index, Some(3));
    assert_eq!(app.selected_pid, Some(7));
    // Re-rank: id 7 now has the highest usage and moves to position 0.
    let second = vec![
        proc(1, "a", 100, 0),
        proc(2, "b", 200, 0),
        proc(3, "c", 300, 0),
        proc(7, "x", 999, 0),
        proc(5, "e", 400, 0),
    ];
    app.tick(None, second, 0, 0, 0);
    assert_eq!(app.selected_index, Some(0));
    assert_eq!(app.selected_pid, Some(7));
    // The process exits: no row is highlighted, the identity is kept.
    let third = vec![proc(1, "a", 100, 0), proc(2, "b", 200, 0)];
    app.tick(None, third, 0, 0, 0);
    assert_eq!(app.selected_index, None);
    assert_eq!(app.selected_pid, Some(7));
    // It reappears under the same id: selection resumes.
    let fourth = vec![proc(1, "a", 100, 0), proc(7, "x", 50, 0)];
    app.tick(None, fourth, 0, 0, 0);
    assert_eq!(app.selected_index, Some(1));
    assert_eq!(app.selected_pid, Some(7));
}

#[test]
fn history_bounds_anchor_then_slide() {
    let mut app = App::new(None);
    assert_eq!(app.history_bounds(), [0, 180]);
    app.tick_count = 60;
    assert_eq!(app.history_bounds(), [0, 180]);
    app.tick_count = 200;
    assert_eq!(app.history_bounds(), [20, 200]);
}

#[test]
fn initial_state() {
    let app = App::new(Some([1, 2, 3, 4]));
    assert_eq!(app.prev_ticks, Some([1, 2, 3, 4]));
    assert_eq!(app.tick_count, 0);
    assert_eq!(app.split, CpuSplit { user: 0, system: 0, idle: 0, total: 0 });
    assert!(app.system_history.is_empty());
    assert!(app.user_history.is_empty());
    assert_eq!(app.thread_count, 0);
    assert_eq!(app.total_memory, 0);
    assert_eq!(app.used_memory, 0);
    assert!(app.processes.is_empty());
    assert_eq!(app.selected_index, Some(0));
    assert_eq!(app.selected_pid, None);
    assert!(app.running);
}

#[test]
fn split_well_formedness_check() {
    let ok = CpuSplit { user: 1, system: 2, idle: 3, total: 6 };
    assert!(ok.check_wf());
    let bad_sum = CpuSplit { user: 1, system: 2, idle: 3, total: 7 };
    assert!(!bad_sum.check_wf());
    let too_big = CpuSplit {
        user: 1u128 << 70,
        system: 0,
        idle: 0,
        total: 1u128 << 70,
    };
    assert!(!too_big.check_wf());
}

#[test]
fn decimal_rendering() {
    assert_eq!(to_decimal(0), "0");
    assert_eq!(to_decimal(7), "7");
    assert_eq!(to_decimal(10), "10");
    assert_eq!(to_decimal(1234567890), "1234567890");
}

#[test]
fn byte_formatting() {
    assert_eq!(fmt_bytes(0), "0 B");
    assert_eq!(fmt_bytes(512), "512 B");
    assert_eq!(fmt_bytes(1023), "1023 B");
    assert_eq!(fmt_bytes(1024), "1.0 KB");
    assert_eq!(fmt_bytes(1536), "1.5 KB");
    assert_eq!(fmt_bytes(12 * 1024 * 1024), "12.0 MB");
    assert_eq!(fmt_bytes(1024 * 1024 * 1024), "1.0 GB");
    assert_eq!(fmt_bytes(3 * 1024 * 1024 * 1024 / 2), "1.5 GB");
}

#[test]
fn thousands_formatting() {
    assert_eq!(fmt_thousands(0), "0");
    assert_eq!(fmt_thousands(999), "999");
    assert_eq!(fmt_thousands(1000), "1.0K");
    assert_eq!(fmt_thousands(1500), "1.5K");
    assert_eq!(fmt_thousands(999999), "1000.0K");
    assert_eq!(fmt_thousands(2_000_000), "2.0M");
    assert_eq!(fmt_thousands(1_234_567), "1.2M");
}
