//! The consumer-owned state store: the latest known value per category,
//! the derived process table with its selection, and the blink flag.
//! The single consumer drains the event bus into it once per tick; the
//! renderer reads an immutable snapshot; input moves the selection out
//! of band.

use vstd::prelude::*;

use crate::bus::EventBus;
use crate::bus::Message;
use crate::disk::Disk;
use crate::host::HostSummary;
use crate::network::Network;
use crate::process::Process;
use crate::process::rebuild_table;
use crate::process::sort_by_cpu_desc_spec;
use crate::process::visible;
use crate::temperature::Temperature;

verus! {

/// The blink flag and when it last toggled, in milliseconds of some
/// monotonic clock. Purely cosmetic: it never gates data correctness.
#[derive(Debug, Clone, Copy, PartialEq, Eq, Structural)]
pub struct BlinkState {
    pub flag: bool,
    pub last_toggle_ms: u64,
}

/// One blink tick: the flag flips, and the timer resets, exactly when a
/// full threshold interval has elapsed since the last toggle; any
/// earlier tick changes nothing.
pub open spec fn spec_tick_blink(b: BlinkState, now_ms: u64, threshold_ms: u64) -> BlinkState {
    if b.last_toggle_ms <= now_ms && now_ms - b.last_toggle_ms >= threshold_ms {
        BlinkState { flag: !b.flag, last_toggle_ms: now_ms }
    } else {
        b
    }
}

/// The blink cadence law: once a tick at `t1` toggles the flag, a tick
/// at any `t2` before a further threshold interval has elapsed changes
/// nothing, and a tick at any `t3` on or after that boundary toggles it
/// exactly once more. However many ticks fall inside one interval, the
/// flag toggles once per elapsed interval.
pub proof fn lemma_blink_toggles_once_per_interval(
    b: BlinkState,
    threshold_ms: u64,
    t1: u64,
    t2: u64,
    t3: u64,
)
    requires
        b.last_toggle_ms <= t1,
        t1 - b.last_toggle_ms >= threshold_ms,
        t1 <= t2,
        t2 - t1 < threshold_ms,
        t1 <= t3,
        t3 - t1 >= threshold_ms,
    ensures
        spec_tick_blink(b, t1, threshold_ms).flag == !b.flag,
        spec_tick_blink(spec_tick_blink(b, t1, threshold_ms), t2, threshold_ms) == spec_tick_blink(
            b,
            t1,
            threshold_ms,
        ),
        spec_tick_blink(spec_tick_blink(b, t1, threshold_ms), t3, threshold_ms).flag == b.flag,
        spec_tick_blink(spec_tick_blink(b, t1, threshold_ms), t3, threshold_ms).last_toggle_ms
            == t3,
{
}

/// A selection is well formed for a table of `len` rows when it is
/// `None` exactly on an empty table and otherwise indexes a row.
pub open spec fn wf_selection(sel: Option<int>, len: nat) -> bool {
    match sel {
        None => len == 0,
        Some(i) => len > 0 && 0 <= i < len,
    }
}

/// Re-clamps a selection after the table was rebuilt: gone on an empty
/// table, kept while still in range, pulled back to the last row when
/// the table shrank past it, and started at the first row when rows
/// first appear.
pub open spec fn spec_clamp_selection(sel: Option<int>, len: nat) -> Option<int> {
    if len == 0 {
        None
    } else {
        match sel {
            None => Some(0),
            Some(i) => if i < 0 {
                Some(0)
            } else if i < len {
                Some(i)
            } else {
                Some(len - 1)
            },
        }
    }
}

/// Moves a selection by `delta` rows, saturating at both ends of the
/// table — never wrapping — and a safe no-op on an empty table.
pub open spec fn spec_move_selection(sel: Option<int>, len: nat, delta: int) -> Option<int> {
    if len == 0 {
        None
    } else {
        match sel {
            None => Some(0),
            Some(i) => {
                let target = i + delta;
                if target < 0 {
                    Some(0)
                } else if target >= len {
                    Some(len - 1)
                } else {
                    Some(target)
                }
            },
        }
    }
}

/// The selection-bounds law: wherever the selection starts, after a
/// move of any distance in either direction it is still well formed —
/// within `[0, len-1]` on a non-empty table, absent on an empty one.
/// Applied move after move, the selection can never leave the table.
pub proof fn lemma_move_selection_stays_in_bounds(sel: Option<int>, len: nat, delta: int)
    ensures
        wf_selection(spec_move_selection(sel, len, delta), len),
{
}

/// The re-clamp law: after any table rebuild the selection is well
/// formed for the new table, whatever it was before.
pub proof fn lemma_clamp_selection_wf(sel: Option<int>, len: nat)
    ensures
        wf_selection(spec_clamp_selection(sel, len), len),
{
}

/// The mathematical value of a `StateStore`.
pub ghost struct StateView {
    pub processes: Seq<Process>,
    pub selected: Option<int>,
    pub network: Network,
    pub cores_usage: Seq<u32>,
    pub mem_usage: u32,
    pub disks_usage: Seq<Disk>,
    pub temperatures: Seq<Temperature>,
    pub host: Option<HostSummary>,
    pub blink: BlinkState,
}

impl StateView {
    /// The store's invariant: the selection matches the table.
    pub open spec fn wf(self) -> bool {
        wf_selection(self.selected, self.processes.len())
    }
}

/// The latest known value per category, plus the derived state: the
/// sorted process table, the selection and the blink flag. Owned and
/// mutated by the consumer task alone.
#[derive(Debug, Clone, PartialEq)]
pub struct StateStore {
    pub processes: Vec<Process>,
    pub selected: Option<usize>,
    pub network: Network,
    pub cores_usage: Vec<u32>,
    pub mem_usage: u32,
    pub disks_usage: Vec<Disk>,
    pub temperatures: Vec<Temperature>,
    pub host: Option<HostSummary>,
    pub blink: BlinkState,
}

impl View for StateStore {
    type V = StateView;

    open spec fn view(&self) -> StateView {
        StateView {
            processes: self.processes@,
            selected: match self.selected {
                Some(i) => Some(i as int),
                None => None,
            },
            network: self.network,
            cores_usage: self.cores_usage@,
            mem_usage: self.mem_usage,
            disks_usage: self.disks_usage@,
            temperatures: self.temperatures@,
            host: self.host,
            blink: self.blink,
        }
    }
}

/// How one message merges into the store: the process category rebuilds
/// the table (visibility floor, then stable descending sort) and
/// re-clamps the selection; every other category replaces its field
/// wholesale.
pub open spec fn spec_apply(v: StateView, m: Message) -> StateView {
    match m {
        Message::Processes(p) => {
            let table = sort_by_cpu_desc_spec(p@.filter(|q: Process| visible(q)));
            StateView {
                processes: table,
                selected: spec_clamp_selection(v.selected, table.len()),
                ..v
            }
        },
        Message::Network(n) => StateView { network: n, ..v },
        Message::CpuUsage(c) => StateView { cores_usage: c@, ..v },
        Message::MemUsage(m) => StateView { mem_usage: m, ..v },
        Message::DiskUsage(d) => StateView { disks_usage: d@, ..v },
        Message::Temperature(t) => StateView { temperatures: t@, ..v },
        Message::GeneralInfo(h) => StateView { host: Some(h), ..v },
    }
}

/// Draining applies the queued messages oldest first.
pub open spec fn spec_drain(v: StateView, msgs: Seq<Message>) -> StateView
    decreases msgs.len(),
{
    if msgs.len() == 0 {
        v
    } else {
        spec_drain(spec_apply(v, msgs[0]), msgs.drop_first())
    }
}

/// The empty-drain law: draining an empty bus leaves the store exactly
/// as it was — draining is idempotent when nothing is queued.
pub proof fn lemma_drain_empty_is_noop(v: StateView)
    ensures
        spec_drain(v, Seq::<Message>::empty()) == v,
{
}

/// Applying any message keeps the store well formed.
pub proof fn lemma_apply_preserves_wf(v: StateView, m: Message)
    requires
        v.wf(),
    ensures
        spec_apply(v, m).wf(),
{
    match m {
        Message::Processes(p) => {
            let table = sort_by_cpu_desc_spec(p@.filter(|q: Process| visible(q)));
            lemma_clamp_selection_wf(v.selected, table.len());
        },
        _ => {},
    }
}

/// Draining any queue of messages keeps the store well formed.
pub proof fn lemma_drain_preserves_wf(v: StateView, msgs: Seq<Message>)
    requires
        v.wf(),
    ensures
        spec_drain(v, msgs).wf(),
    decreases msgs.len(),
{
    if msgs.len() == 0 {
    } else {
        lemma_apply_preserves_wf(v, msgs[0]);
        lemma_drain_preserves_wf(spec_apply(v, msgs[0]), msgs.drop_first());
    }
}

/// Whether a table cell is drawn in its blinking style this tick: only
/// when the value reaches its threshold and the blink flag is on.
pub fn cell_blinks(value_centi: u32, threshold_centi: u32, blink: bool) -> (r: bool)
    ensures
        r == (value_centi >= threshold_centi && blink),
{
    value_centi >= threshold_centi && blink
}

impl StateStore {
    /// An empty store: no rows, no selection, zeroed categories, blink
    /// flag off with its timer at zero.
    pub fn new() -> (s: StateStore)
        ensures
            s@.processes == Seq::<Process>::empty(),
            s@.selected is None,
            s@.network.upload == 0 && s@.network.download == 0,
            s@.cores_usage == Seq::<u32>::empty(),
            s@.mem_usage == 0,
            s@.disks_usage == Seq::<Disk>::empty(),
            s@.temperatures == Seq::<Temperature>::empty(),
            s@.host is None,
            s@.blink == (BlinkState { flag: false, last_toggle_ms: 0 }),
            s@.wf(),
    {
        StateStore {
            processes: Vec::new(),
            selected: None,
            network: Network::new(),
            cores_usage: Vec::new(),
            mem_usage: 0,
            disks_usage: Vec::new(),
            temperatures: Vec::new(),
            host: None,
            blink: BlinkState { flag: false, last_toggle_ms: 0 },
        }
    }

    /// Replaces the process table for this cycle — visibility floor,
    /// stable descending sort — and re-clamps the selection to it.
    pub fn update_processes(&mut self, processes: Vec<Process>)
        ensures
            final(self)@ == spec_apply(old(self)@, Message::Processes(processes)),
    {
        let table = rebuild_table(processes);
        self.processes = table;
        let len = self.processes.len();
        self.selected = if len == 0 {
            None
        } else {
            match self.selected {
                None => Some(0),
                Some(i) => if i < len {
                    Some(i)
                } else {
                    Some(len - 1)
                },
            }
        };
    }

    /// Merges one tagged message into the store.
    pub fn apply(&mut self, m: Message)
        ensures
            final(self)@ == spec_apply(old(self)@, m),
    {
        match m {
            Message::Processes(p) => {
                self.update_processes(p);
            },
            Message::Network(n) => {
                self.network = n;
            },
            Message::CpuUsage(c) => {
                self.cores_usage = c;
            },
            Message::MemUsage(m) => {
                self.mem_usage = m;
            },
            Message::DiskUsage(d) => {
                self.disks_usage = d;
            },
            Message::Temperature(t) => {
                self.temperatures = t;
            },
            Message::GeneralInfo(h) => {
                self.host = Some(h);
            },
        }
    }

    /// Drains the bus completely, applying every queued message oldest
    /// first; the whole drain finishes before anything is rendered, so
    /// the renderer never sees a half-merged state. On an empty bus the
    /// store comes out exactly as it went in.
    #[verifier::loop_isolation(false)]
    pub fn drain(&mut self, bus: &mut EventBus)
        ensures
            final(bus)@ == Seq::<Message>::empty(),
            final(self)@ == spec_drain(old(self)@, old(bus)@),
            old(bus)@.len() == 0 ==> final(self)@ == old(self)@,
    {
        let ghost s0 = self@;
        let ghost q0 = bus@;
        while bus.len() > 0
            invariant
                spec_drain(s0, q0) == spec_drain(self@, bus@),
            decreases bus@.len(),
        {
            let ghost s_pre = self@;
            let ghost q_pre = bus@;
            let m = bus.try_receive();
            match m {
                Some(m) => {
                    self.apply(m);
                    proof {
                        assert(spec_drain(s_pre, q_pre) == spec_drain(
                            spec_apply(s_pre, q_pre[0]),
                            q_pre.drop_first(),
                        ));
                    }
                },
                None => {
                },
            }
        }
    }

    /// Moves the selection by `delta` rows, saturating at the first and
    /// last row; a safe no-op on an empty table.
    pub fn move_selection(&mut self, delta: i64)
        ensures
            final(self)@ == (StateView {
                selected: spec_move_selection(
                    old(self)@.selected,
                    old(self)@.processes.len(),
                    delta as int,
                ),
                ..old(self)@
            }),
    {
        let len = self.processes.len();
        self.selected = if len == 0 {
            None
        } else {
            match self.selected {
                None => Some(0),
                Some(i) => {
                    let target: i128 = i as i128 + delta as i128;
                    if target < 0 {
                        Some(0)
                    } else if target >= len as i128 {
                        Some(len - 1)
                    } else {
                        Some(target as usize)
                    }
                },
            }
        };
    }

    /// Advances the blink flag for a tick at `now_ms`: flips it exactly
    /// when a full threshold interval has elapsed since the last
    /// toggle, and otherwise changes nothing.
    pub fn tick_blink(&mut self, now_ms: u64, threshold_ms: u64)
        ensures
            final(self)@ == (StateView {
                blink: spec_tick_blink(old(self)@.blink, now_ms, threshold_ms),
                ..old(self)@
            }),
    {
        if now_ms >= self.blink.last_toggle_ms && now_ms - self.blink.last_toggle_ms
            >= threshold_ms {
            self.blink = BlinkState { flag: !self.blink.flag, last_toggle_ms: now_ms };
        }
    }

    /// The read-only snapshot handed to the renderer once per tick,
    /// after the drain has completed.
    pub fn snapshot(&self) -> (s: &StateStore)
        ensures
            s == self,
    {
        self
    }
}

} // verus!
