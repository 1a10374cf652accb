//! The process pipeline: sampler filtering, row building and the
//! stable descending sort of the table.

use sysdash::process::{rebuild_table, sample_processes, sort_most_consume_cpu, Process, RawProcess};

fn row(pid: u32, name: &str, user: &str, cpu_centi: u32, mem_centi: u32) -> Process {
    Process {
        pid,
        process_name: name.to_string(),
        user: user.to_string(),
        cpu_usage: cpu_centi,
        mem_usage: mem_centi,
    }
}

fn raw(pid: u32, name: &str, user: Option<&str>, cpu_centi: u32, mem_centi: u32) -> RawProcess {
    RawProcess {
        pid,
        name: name.to_string(),
        user: user.map(|u| u.to_string()),
        cpu_usage: cpu_centi,
        mem_usage: mem_centi,
    }
}

#[test]
fn table_scenario_filter_and_sort() {
    // provider rows (cpu%, mem%) = (0.05, 0.1), (9.9, 5.0), (0.0, 0.0);
    // visibility floor 0.2% cpu: only the middle row survives
    let raws = vec![
        raw(1, "a", Some("bob"), 5, 10),
        raw(2, "b", Some("bob"), 990, 500),
        raw(3, "c", Some("bob"), 0, 0),
    ];
    let sampled = sample_processes(raws);
    // the zero row is no signal and is dropped by the sampler already
    assert_eq!(sampled.len(), 2);
    let table = rebuild_table(sampled);
    assert_eq!(table.len(), 1);
    assert_eq!(table[0].pid, 2);
    assert_eq!(table[0].process_name, "b");
    assert_eq!(table[0].user, "bob");
    assert_eq!(table[0].cpu_usage, 990);
    assert_eq!(table[0].mem_usage, 500);
}

#[test]
fn sampler_defaults_missing_user() {
    let sampled = sample_processes(vec![raw(7, "svc", None, 100, 100)]);
    assert_eq!(sampled.len(), 1);
    assert_eq!(sampled[0].user, "unknown");
}

#[test]
fn sampler_rounds_memory_to_whole_percent() {
    let sampled = sample_processes(vec![
        raw(1, "a", Some("u"), 100, 149),
        raw(2, "b", Some("u"), 100, 150),
        raw(3, "c", Some("u"), 100, 49),
    ]);
    assert_eq!(sampled[0].mem_usage, 100);
    assert_eq!(sampled[1].mem_usage, 200);
    // 0.49% rounds down to zero whole percent, but the row was kept:
    // the no-signal check looks at the raw value
    assert_eq!(sampled[2].mem_usage, 0);
}

#[test]
fn sort_is_descending_and_stable() {
    let mut rows = vec![
        row(1, "first", "u", 500, 0),
        row(2, "top", "u", 900, 0),
        row(3, "second", "u", 500, 0),
        row(4, "last", "u", 100, 0),
    ];
    sort_most_consume_cpu(&mut rows);
    let pids: Vec<u32> = rows.iter().map(|p| p.pid).collect();
    // the two 5% rows keep their original relative order
    assert_eq!(pids, vec![2, 1, 3, 4]);
}

#[test]
fn sort_handles_empty_and_single() {
    let mut empty: Vec<Process> = Vec::new();
    sort_most_consume_cpu(&mut empty);
    assert!(empty.is_empty());

    let mut one = vec![row(1, "only", "u", 10, 10)];
    sort_most_consume_cpu(&mut one);
    assert_eq!(one.len(), 1);
    assert_eq!(one[0].pid, 1);
}

#[test]
fn sort_all_ties_keeps_order() {
    let mut rows = vec![
        row(1, "a", "u", 300, 0),
        row(2, "b", "u", 300, 0),
        row(3, "c", "u", 300, 0),
    ];
    sort_most_consume_cpu(&mut rows);
    let pids: Vec<u32> = rows.iter().map(|p| p.pid).collect();
    assert_eq!(pids, vec![1, 2, 3]);
}

#[test]
fn builder_sets_every_field() {
    let p = Process::default()
        .set_pid(42)
        .set_process_name("proc".to_string())
        .set_user("root".to_string())
        .set_cpu_usage(1234)
        .set_mem_usage(149)
        .build()
        .unwrap();
    assert_eq!(p.pid, 42);
    assert_eq!(p.process_name, "proc");
    assert_eq!(p.user, "root");
    assert_eq!(p.cpu_usage, 1234);
    assert_eq!(p.mem_usage, 100);
}

#[test]
fn rebuild_keeps_rows_at_the_floor() {
    // exactly 0.2% is visible; just below is not
    let table = rebuild_table(vec![row(1, "at", "u", 20, 100), row(2, "below", "u", 19, 100)]);
    assert_eq!(table.len(), 1);
    assert_eq!(table[0].pid, 1);
}
