//! The state store: draining the bus, selection movement, the blink
//! cadence and the run-loop state machine.

use sysdash::bus::{EventBus, Message};
use sysdash::control::{handle_command, Command, RunState};
use sysdash::network::Network;
use sysdash::process::Process;
use sysdash::state::{cell_blinks, StateStore};

fn row(pid: u32, cpu_centi: u32) -> Process {
    Process {
        pid,
        process_name: format!("p{}", pid),
        user: "u".to_string(),
        cpu_usage: cpu_centi,
        mem_usage: 100,
    }
}

fn store_with_rows(n: u32) -> StateStore {
    let mut store = StateStore::new();
    let rows: Vec<Process> = (1..=n).map(|i| row(i, 1000 * i)).collect();
    store.update_processes(rows);
    store
}

#[test]
fn drain_on_empty_bus_changes_nothing() {
    let mut store = store_with_rows(3);
    store.apply(Message::MemUsage(4200));
    store.apply(Message::Network(Network { upload: 1, download: 2 }));
    let before = store.clone();
    let mut bus = EventBus::new();
    store.drain(&mut bus);
    assert_eq!(store, before);
    assert_eq!(bus.len(), 0);
}

#[test]
fn drain_applies_messages_oldest_first() {
    let mut store = StateStore::new();
    let mut bus = EventBus::new();
    bus.send(Message::MemUsage(1000));
    bus.send(Message::CpuUsage(vec![100, 200]));
    bus.send(Message::MemUsage(2000));
    store.drain(&mut bus);
    assert_eq!(store.mem_usage, 2000);
    assert_eq!(store.cores_usage, vec![100, 200]);
    assert_eq!(bus.len(), 0);
}

#[test]
fn bus_is_fifo_and_empty_receive_is_none() {
    let mut bus = EventBus::new();
    assert!(bus.try_receive().is_none());
    bus.send(Message::MemUsage(1));
    bus.send(Message::MemUsage(2));
    match bus.try_receive() {
        Some(Message::MemUsage(v)) => assert_eq!(v, 1),
        _ => panic!("expected the first message"),
    }
    match bus.try_receive() {
        Some(Message::MemUsage(v)) => assert_eq!(v, 2),
        _ => panic!("expected the second message"),
    }
    assert!(bus.try_receive().is_none());
}

#[test]
fn selection_up_at_first_row_saturates() {
    // a 5-row table selected at row 0: moving up stays at 0, no wrap
    let mut store = store_with_rows(5);
    store.selected = Some(0);
    let next = handle_command(&mut store, Command::MoveSelectionUp);
    assert_eq!(next, RunState::Running);
    assert_eq!(store.selected, Some(0));
}

#[test]
fn selection_down_at_last_row_saturates() {
    let mut store = store_with_rows(5);
    store.selected = Some(4);
    let next = handle_command(&mut store, Command::MoveSelectionDown);
    assert_eq!(next, RunState::Running);
    assert_eq!(store.selected, Some(4));
}

#[test]
fn selection_stays_in_bounds_over_any_run() {
    let mut store = store_with_rows(3);
    let moves: Vec<i64> = vec![1, 1, 1, 1, -1, -1, -1, -1, -1, 1, -1, 1, 1, 1, 1, 1];
    for d in moves {
        store.move_selection(d);
        let sel = store.selected.expect("non-empty table always has a selection");
        assert!(sel < store.processes.len());
    }
}

#[test]
fn selection_is_noop_on_empty_table() {
    let mut store = StateStore::new();
    store.move_selection(1);
    assert_eq!(store.selected, None);
    store.move_selection(-1);
    assert_eq!(store.selected, None);
}

#[test]
fn selection_clamps_when_table_shrinks() {
    let mut store = store_with_rows(5);
    store.selected = Some(4);
    store.update_processes(vec![row(1, 1000), row(2, 2000)]);
    assert_eq!(store.selected, Some(1));
}

#[test]
fn exit_command_ends_the_loop_and_touches_nothing() {
    let mut store = store_with_rows(2);
    let before = store.clone();
    let next = handle_command(&mut store, Command::Exit);
    assert_eq!(next, RunState::Exiting);
    assert_eq!(store, before);
}

#[test]
fn blink_toggles_once_per_interval() {
    // threshold 1000 ms, many ticks: the flag flips only when a full
    // interval has elapsed since the last toggle
    let mut store = StateStore::new();
    assert!(!store.blink.flag);
    store.tick_blink(500, 1000);
    assert!(!store.blink.flag);
    store.tick_blink(999, 1000);
    assert!(!store.blink.flag);
    store.tick_blink(1000, 1000);
    assert!(store.blink.flag);
    assert_eq!(store.blink.last_toggle_ms, 1000);
    store.tick_blink(1100, 1000);
    store.tick_blink(1500, 1000);
    store.tick_blink(1999, 1000);
    assert!(store.blink.flag);
    store.tick_blink(2000, 1000);
    assert!(!store.blink.flag);
    assert_eq!(store.blink.last_toggle_ms, 2000);
}

#[test]
fn cell_blinks_only_at_threshold_with_flag_on() {
    assert!(cell_blinks(1000, 1000, true));
    assert!(cell_blinks(1500, 1000, true));
    assert!(!cell_blinks(999, 1000, true));
    assert!(!cell_blinks(1500, 1000, false));
}

#[test]
fn apply_replaces_categories_wholesale() {
    let mut store = StateStore::new();
    store.apply(Message::CpuUsage(vec![5000, 2500]));
    assert_eq!(store.cores_usage, vec![5000, 2500]);
    store.apply(Message::CpuUsage(vec![100]));
    assert_eq!(store.cores_usage, vec![100]);
    store.apply(Message::Network(Network { upload: 16000, download: 20000 }));
    assert_eq!(store.network.upload, 16000);
    assert_eq!(store.network.download, 20000);
}
