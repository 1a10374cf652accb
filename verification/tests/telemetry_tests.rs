//! The category samplers' computations: network rates, disk usage,
//! temperatures, the host census and the percentage helper.

use sysdash::config::{AppConfig, PartialConfig};
use sysdash::disk::Disk;
use sysdash::host::{count_statuses, HostSummary, ProcessStatus, StatusCounts};
use sysdash::network::{accumulate_rates, is_physical_interface, IfaceSample, Network};
use sysdash::temperature::{filter_present, Temperature};
use sysdash::utils::percent_centi;

fn iface(name: &str, transmitted: u64, received: u64) -> IfaceSample {
    IfaceSample { name: name.to_string(), transmitted, received }
}

#[test]
fn network_sums_matching_interfaces() {
    // two matching interfaces, sent 1000 B and 1000 B, received 2000 B
    // and 500 B over one second: 16.0 kbps up, 20.0 kbps down,
    // carried as 16000 and 20000 bits per second
    let samples = vec![iface("wlp3s0", 1000, 2000), iface("enp0s1", 1000, 500)];
    let rates = accumulate_rates(&samples);
    assert_eq!(rates.upload, 16_000);
    assert_eq!(rates.download, 20_000);
}

#[test]
fn network_ignores_virtual_interfaces() {
    let samples = vec![
        iface("lo", 9999, 9999),
        iface("docker0", 123, 456),
        iface("wlp2s0", 125, 250),
    ];
    let rates = accumulate_rates(&samples);
    assert_eq!(rates.upload, 1000);
    assert_eq!(rates.download, 2000);
}

#[test]
fn interface_pattern_matches_physical_names() {
    assert!(is_physical_interface("wlp3s0"));
    assert!(is_physical_interface("enp0s31f6"));
    assert!(!is_physical_interface("lo"));
    assert!(!is_physical_interface("docker0"));
    assert!(!is_physical_interface("veth12ab"));
    assert!(!is_physical_interface("en"));
    assert!(!is_physical_interface(""));
}

#[test]
fn network_update_replaces_rates() {
    let mut n = Network::new();
    assert_eq!((n.upload, n.download), (0, 0));
    n.update(7, 9);
    assert_eq!((n.upload, n.download), (7, 9));
}

#[test]
fn disk_percent_used_scenario() {
    let d = Disk::new("root".to_string(), "ext4".to_string(), 100, 30);
    assert_eq!(d.percent_used_space(), 70);
}

#[test]
fn disk_percent_used_zero_capacity_is_defined() {
    let d = Disk::new("empty".to_string(), "none".to_string(), 0, 0);
    assert_eq!(d.percent_used_space(), 0);
}

#[test]
fn disk_percent_used_edges() {
    let full = Disk::new("full".to_string(), "ext4".to_string(), 1_000_000_000_000, 0);
    assert_eq!(full.percent_used_space(), 100);
    let odd = Disk::new("odd".to_string(), "ext4".to_string(), 3, 1);
    assert_eq!(odd.percent_used_space(), 66);
}

#[test]
fn temperature_filter_drops_absent_sensors() {
    let readings = vec![
        Temperature::new("cpu".to_string(), 4550, 9000, 10000),
        Temperature::new("ghost".to_string(), 0, 0, 0),
        Temperature::new("gpu".to_string(), 6025, 9500, 10500),
    ];
    let kept = filter_present(readings);
    assert_eq!(kept.len(), 2);
    assert_eq!(kept[0].label, "cpu");
    assert_eq!(kept[1].label, "gpu");
}

#[test]
fn census_counts_every_category() {
    let statuses = vec![
        ProcessStatus::Run,
        ProcessStatus::Sleep,
        ProcessStatus::Sleep,
        ProcessStatus::Zombie,
        ProcessStatus::Other,
        ProcessStatus::Sleep,
    ];
    let c = count_statuses(&statuses);
    assert_eq!(c.running, 1);
    assert_eq!(c.sleeping, 3);
    assert_eq!(c.stopped, 0);
    assert_eq!(c.zombie, 1);
    assert_eq!(c.other, 1);
    assert_eq!(c.total(), 6);
}

#[test]
fn census_of_nothing_is_zero() {
    let c = count_statuses(&Vec::new());
    assert_eq!(c, StatusCounts { running: 0, sleeping: 0, stopped: 0, zombie: 0, other: 0 });
    assert_eq!(c.total(), 0);
}

#[test]
fn host_summary_carries_its_fields() {
    let c = count_statuses(&vec![ProcessStatus::Run]);
    let h = HostSummary::new(86_400, 52, 161, 204, c);
    assert_eq!(h.uptime_seconds, 86_400);
    assert_eq!(h.load_one_centi, 52);
    assert_eq!(h.load_five_centi, 161);
    assert_eq!(h.load_fifteen_centi, 204);
    assert_eq!(h.counts.running, 1);
}

#[test]
fn percent_centi_truncates() {
    assert_eq!(percent_centi(30, 100), 3000);
    assert_eq!(percent_centi(1, 3), 3333);
    assert_eq!(percent_centi(0, 100), 0);
    assert_eq!(percent_centi(100, 100), 10000);
}

#[test]
fn percent_centi_zero_total_is_defined() {
    assert_eq!(percent_centi(5, 0), 0);
}

#[test]
fn config_fills_defaults_for_missing_fields() {
    let c = AppConfig::new(PartialConfig::default());
    assert_eq!(c.tick_rate_ms, 100);
    assert_eq!(c.blink_threshold_rate_ms, 1000);
    assert_eq!(c.cpu_threshold_centi, 1000);
    assert_eq!(c.single_cpu_threshold_centi, 5000);
    assert_eq!(c.mem_threshold_centi, 2000);
}

#[test]
fn config_keeps_given_fields() {
    let given = PartialConfig {
        tick_rate_ms: Some(250),
        blink_threshold_rate_ms: None,
        cpu_threshold_centi: Some(500),
        single_cpu_threshold_centi: None,
        mem_threshold_centi: Some(9000),
    };
    let c = AppConfig::new(given);
    assert_eq!(c.tick_rate_ms, 250);
    assert_eq!(c.blink_threshold_rate_ms, 1000);
    assert_eq!(c.cpu_threshold_centi, 500);
    assert_eq!(c.single_cpu_threshold_centi, 5000);
    assert_eq!(c.mem_threshold_centi, 9000);
}
