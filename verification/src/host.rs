//! Host summary: uptime, load averages (in hundredths) and a census of
//! processes by status category.

use vstd::prelude::*;

verus! {

/// A process's status category as the provider reports it. Statuses the
/// census does not break out separately fall under `Other`.
#[derive(Debug, Clone, Copy, PartialEq, Eq, Structural)]
pub enum ProcessStatus {
    Run,
    Sleep,
    Stop,
    Zombie,
    Other,
}

/// How many processes were in each status category, zero for any
/// category that never appeared.
#[derive(Debug, Clone, Copy, PartialEq, Eq, Structural)]
pub struct StatusCounts {
    pub running: u64,
    pub sleeping: u64,
    pub stopped: u64,
    pub zombie: u64,
    pub other: u64,
}

/// How many entries of `s` have status `st`.
pub open spec fn count_status(s: Seq<ProcessStatus>, st: ProcessStatus) -> nat
    decreases s.len(),
{
    if s.len() == 0 {
        0
    } else {
        count_status(s.drop_last(), st) + if s.last() == st {
            1nat
        } else {
            0nat
        }
    }
}

impl StatusCounts {
    /// Total number of processes counted.
    pub fn total(&self) -> (t: u64)
        requires
            self.running + self.sleeping + self.stopped + self.zombie + self.other <= u64::MAX,
        ensures
            t == self.running + self.sleeping + self.stopped + self.zombie + self.other,
    {
        self.running + self.sleeping + self.stopped + self.zombie + self.other
    }
}

/// One host-summary cycle's census: counts the processes in each status
/// category; a category that never appears stays 0, and the five counts
/// always add up to the number of processes.
#[verifier::loop_isolation(false)]
pub fn count_statuses(statuses: &Vec<ProcessStatus>) -> (c: StatusCounts)
    ensures
        c.running == count_status(statuses@, ProcessStatus::Run),
        c.sleeping == count_status(statuses@, ProcessStatus::Sleep),
        c.stopped == count_status(statuses@, ProcessStatus::Stop),
        c.zombie == count_status(statuses@, ProcessStatus::Zombie),
        c.other == count_status(statuses@, ProcessStatus::Other),
        c.running + c.sleeping + c.stopped + c.zombie + c.other == statuses@.len(),
{
    let mut c = StatusCounts { running: 0, sleeping: 0, stopped: 0, zombie: 0, other: 0 };
    let mut i: usize = 0;
    proof {
        assert(statuses@.subrange(0, 0) =~= Seq::<ProcessStatus>::empty());
    }
    while i < statuses.len()
        invariant
            i <= statuses@.len(),
            c.running == count_status(statuses@.subrange(0, i as int), ProcessStatus::Run),
            c.sleeping == count_status(statuses@.subrange(0, i as int), ProcessStatus::Sleep),
            c.stopped == count_status(statuses@.subrange(0, i as int), ProcessStatus::Stop),
            c.zombie == count_status(statuses@.subrange(0, i as int), ProcessStatus::Zombie),
            c.other == count_status(statuses@.subrange(0, i as int), ProcessStatus::Other),
            c.running + c.sleeping + c.stopped + c.zombie + c.other == i,
        decreases statuses@.len() - i,
    {
        let ghost done = statuses@.subrange(0, i as int);
        match statuses[i] {
            ProcessStatus::Run => {
                c.running = c.running + 1;
            },
            ProcessStatus::Sleep => {
                c.sleeping = c.sleeping + 1;
            },
            ProcessStatus::Stop => {
                c.stopped = c.stopped + 1;
            },
            ProcessStatus::Zombie => {
                c.zombie = c.zombie + 1;
            },
            ProcessStatus::Other => {
                c.other = c.other + 1;
            },
        }
        proof {
            assert(statuses@.subrange(0, i + 1).drop_last() =~= done);
            assert(statuses@.subrange(0, i + 1).last() == statuses@[i as int]);
        }
        i = i + 1;
    }
    proof {
        assert(statuses@.subrange(0, statuses@.len() as int) =~= statuses@);
    }
    c
}

/// The host-summary category value: uptime in seconds, the 1, 5 and
/// 15 minute load averages in hundredths, and the status census.
#[derive(Debug, Clone, Copy, PartialEq, Eq, Structural)]
pub struct HostSummary {
    pub uptime_seconds: u64,
    pub load_one_centi: u64,
    pub load_five_centi: u64,
    pub load_fifteen_centi: u64,
    pub counts: StatusCounts,
}

impl HostSummary {
    pub fn new(
        uptime_seconds: u64,
        load_one_centi: u64,
        load_five_centi: u64,
        load_fifteen_centi: u64,
        counts: StatusCounts,
    ) -> (h: HostSummary)
        ensures
            h.uptime_seconds == uptime_seconds,
            h.load_one_centi == load_one_centi,
            h.load_five_centi == load_five_centi,
            h.load_fifteen_centi == load_fifteen_centi,
            h.counts == counts,
    {
        HostSummary { uptime_seconds, load_one_centi, load_five_centi, load_fifteen_centi, counts }
    }
}

} // verus!
