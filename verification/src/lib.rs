//! Core of a live terminal dashboard: the telemetry acquisition and
//! synchronization pipeline. Independently scheduled samplers turn raw
//! host counters into category value objects and publish them on an
//! event bus; a single consumer drains the bus once per tick into a
//! state store that owns the derived state (sorted process ranking,
//! selection, blink flag). Rendering, input decoding and the raw OS
//! metrics source live outside this crate and exchange plain values
//! with it.
//!
//! Fractional quantities (percentages, load averages, temperatures)
//! are carried as scaled integers: percentages in hundredths of a
//! percent, loads in hundredths, temperatures in hundredths of a
//! degree, network rates in bits per second.

pub mod bus;
pub mod config;
pub mod control;
pub mod disk;
pub mod host;
pub mod network;
pub mod process;
pub mod state;
pub mod temperature;
pub mod utils;
