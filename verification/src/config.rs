//! Run-time configuration: cadences in milliseconds and display
//! thresholds in hundredths of a percent. Loading the configuration
//! file is the caller's business; this module only merges whatever the
//! caller managed to read with the built-in defaults.

use vstd::prelude::*;

verus! {

/// Default render/input tick cadence, in milliseconds.
pub const DEFAULT_TICK_RATE_MS: u64 = 100;

/// Default blink-toggle cadence, in milliseconds.
pub const DEFAULT_BLINK_THRESHOLD_RATE_MS: u64 = 1000;

/// Default per-process CPU threshold for blinking cells: 10%.
pub const DEFAULT_CPU_THRESHOLD_CENTI: u32 = 1000;

/// Default single-core CPU threshold for highlighting a core: 50%.
pub const DEFAULT_SINGLE_CPU_THRESHOLD_CENTI: u32 = 5000;

/// Default memory threshold for blinking cells: 20%.
pub const DEFAULT_MEM_THRESHOLD_CENTI: u32 = 2000;

/// What a configuration file provided, field by field; a missing field
/// is `None` and falls back to its default.
#[derive(Debug, Clone, Default)]
pub struct PartialConfig {
    pub tick_rate_ms: Option<u64>,
    pub blink_threshold_rate_ms: Option<u64>,
    pub cpu_threshold_centi: Option<u32>,
    pub single_cpu_threshold_centi: Option<u32>,
    pub mem_threshold_centi: Option<u32>,
}

/// The effective configuration, consumed read-only by the render loop
/// and the threshold checks.
#[derive(Debug, Clone, Copy)]
pub struct AppConfig {
    pub tick_rate_ms: u64,
    pub blink_threshold_rate_ms: u64,
    pub cpu_threshold_centi: u32,
    pub single_cpu_threshold_centi: u32,
    pub mem_threshold_centi: u32,
}

impl AppConfig {
    /// Merges what the configuration file provided with the defaults:
    /// every given field is kept, every missing one defaulted.
    pub fn new(given: PartialConfig) -> (c: AppConfig)
        ensures
            c.tick_rate_ms == (match given.tick_rate_ms {
                Some(v) => v,
                None => DEFAULT_TICK_RATE_MS,
            }),
            c.blink_threshold_rate_ms == (match given.blink_threshold_rate_ms {
                Some(v) => v,
                None => DEFAULT_BLINK_THRESHOLD_RATE_MS,
            }),
            c.cpu_threshold_centi == (match given.cpu_threshold_centi {
                Some(v) => v,
                None => DEFAULT_CPU_THRESHOLD_CENTI,
            }),
            c.single_cpu_threshold_centi == (match given.single_cpu_threshold_centi {
                Some(v) => v,
                None => DEFAULT_SINGLE_CPU_THRESHOLD_CENTI,
            }),
            c.mem_threshold_centi == (match given.mem_threshold_centi {
                Some(v) => v,
                None => DEFAULT_MEM_THRESHOLD_CENTI,
            }),
    {
        AppConfig {
            tick_rate_ms: match given.tick_rate_ms {
                Some(v) => v,
                None => DEFAULT_TICK_RATE_MS,
            },
            blink_threshold_rate_ms: match given.blink_threshold_rate_ms {
                Some(v) => v,
                None => DEFAULT_BLINK_THRESHOLD_RATE_MS,
            },
            cpu_threshold_centi: match given.cpu_threshold_centi {
                Some(v) => v,
                None => DEFAULT_CPU_THRESHOLD_CENTI,
            },
            single_cpu_threshold_centi: match given.single_cpu_threshold_centi {
                Some(v) => v,
                None => DEFAULT_SINGLE_CPU_THRESHOLD_CENTI,
            },
            mem_threshold_centi: match given.mem_threshold_centi {
                Some(v) => v,
                None => DEFAULT_MEM_THRESHOLD_CENTI,
            },
        }
    }
}

} // verus!
