//! Per-process samples and the derived process table.
//!
//! A `Process` row is recreated wholesale each sampling cycle. CPU and
//! memory usage are carried in hundredths of a percent; memory usage is
//! rounded to a whole percent (a multiple of 100) when a row is built.
//! The table shown to the renderer is rebuilt each cycle: rows below a
//! visibility floor are dropped and the rest are sorted by CPU usage,
//! descending, with ties keeping their original order (a stable sort).

use vstd::prelude::*;
use vstd::string::StringExecFns;

verus! {

/// Rows whose CPU usage is below this floor (in hundredths of a
/// percent, so 0.2%) are dropped from the process table.
pub const VISIBILITY_FLOOR_CENTI: u32 = 20;

/// One process row: identity, names and usage in hundredths of a percent.
#[derive(Debug, Clone, PartialEq)]
pub struct Process {
    pub pid: u32,
    pub process_name: String,
    pub user: String,
    /// CPU usage normalized against global CPU usage, in hundredths of
    /// a percent; may exceed 10000 on multi-core hosts.
    pub cpu_usage: u32,
    /// Memory usage in hundredths of a percent, rounded to a whole
    /// percent (a multiple of 100) by the builder.
    pub mem_usage: u32,
}

/// Rounds a value in hundredths of a percent to the nearest whole
/// percent, still expressed in hundredths; saturates at `u32::MAX`.
pub open spec fn spec_round_to_whole(m: u32) -> u32 {
    let r = ((m + 50) / 100) * 100;
    if r > u32::MAX {
        u32::MAX
    } else {
        r as u32
    }
}

impl Default for Process {
    /// An all-empty row, the starting point of the builder.
    fn default() -> (p: Process)
        ensures
            p.pid == 0,
            p.process_name@ == Seq::<char>::empty(),
            p.user@ == Seq::<char>::empty(),
            p.cpu_usage == 0,
            p.mem_usage == 0,
    {
        Process {
            pid: 0,
            process_name: String::new(),
            user: String::new(),
            cpu_usage: 0,
            mem_usage: 0,
        }
    }
}

impl Process {
    pub fn set_pid(self, pid: u32) -> (r: Process)
        ensures
            r == (Process { pid, ..self }),
    {
        Process { pid, ..self }
    }

    pub fn set_process_name(self, process_name: String) -> (r: Process)
        ensures
            r == (Process { process_name, ..self }),
    {
        Process { process_name, ..self }
    }

    pub fn set_user(self, user: String) -> (r: Process)
        ensures
            r == (Process { user, ..self }),
    {
        Process { user, ..self }
    }

    pub fn set_cpu_usage(self, cpu_usage: u32) -> (r: Process)
        ensures
            r == (Process { cpu_usage, ..self }),
    {
        Process { cpu_usage, ..self }
    }

    /// Stores the memory usage rounded to a whole percent.
    pub fn set_mem_usage(self, mem_usage: u32) -> (r: Process)
        ensures
            r == (Process { mem_usage: spec_round_to_whole(mem_usage), ..self }),
    {
        let rounded64: u64 = ((mem_usage as u64 + 50) / 100) * 100;
        let rounded: u32 = if rounded64 > u32::MAX as u64 {
            u32::MAX
        } else {
            rounded64 as u32
        };
        Process { mem_usage: rounded, ..self }
    }

    /// Finishes the builder; building never fails.
    pub fn build(self) -> (r: Result<Process, ()>)
        ensures
            r matches Ok(p) && p == self,
    {
        Ok(self)
    }
}

/// True when the rows are ordered by CPU usage, highest first.
pub open spec fn sorted_by_cpu_desc(s: Seq<Process>) -> bool {
    forall|i: int, j: int| 0 <= i <= j < s.len() ==> s[i].cpu_usage >= s[j].cpu_usage
}

/// Inserts `x` into `s` after every row whose CPU usage is at least
/// `x`'s, so that on a sorted sequence the order stays sorted and a tie
/// keeps the earlier row first.
pub open spec fn insert_by_cpu_desc(s: Seq<Process>, x: Process) -> Seq<Process>
    decreases s.len(),
{
    if s.len() == 0 {
        seq![x]
    } else if s.last().cpu_usage >= x.cpu_usage {
        s.push(x)
    } else {
        insert_by_cpu_desc(s.drop_last(), x).push(s.last())
    }
}

/// Insertion sort by CPU usage, descending: the unique stable ordering
/// of `s`, rows with equal CPU usage keeping their original order.
pub open spec fn sort_by_cpu_desc_spec(s: Seq<Process>) -> Seq<Process>
    decreases s.len(),
{
    if s.len() == 0 {
        Seq::empty()
    } else {
        insert_by_cpu_desc(sort_by_cpu_desc_spec(s.drop_last()), s.last())
    }
}

proof fn lemma_insert_by_cpu_desc_len(s: Seq<Process>, x: Process)
    ensures
        insert_by_cpu_desc(s, x).len() == s.len() + 1,
    decreases s.len(),
{
    if s.len() == 0 {
    } else if s.last().cpu_usage >= x.cpu_usage {
    } else {
        lemma_insert_by_cpu_desc_len(s.drop_last(), x);
    }
}

proof fn lemma_insert_by_cpu_desc_sorted(s: Seq<Process>, x: Process)
    requires
        sorted_by_cpu_desc(s),
    ensures
        sorted_by_cpu_desc(insert_by_cpu_desc(s, x)),
    decreases s.len(),
{
    if s.len() == 0 {
    } else if s.last().cpu_usage >= x.cpu_usage {
    } else {
        let t = s.drop_last();
        assert(sorted_by_cpu_desc(t));
        lemma_insert_by_cpu_desc_sorted(t, x);
        lemma_insert_by_cpu_desc_len(t, x);
        let u = insert_by_cpu_desc(t, x);
        // every element of u is either from t or is x, and all of them
        // have CPU usage at least s.last()'s
        assert forall|i: int| 0 <= i < u.len() implies u[i].cpu_usage >= s.last().cpu_usage by {
            lemma_insert_by_cpu_desc_membership(t, x, i);
            if u[i] == x {
            } else {
            }
        }
    }
}

/// Each position of the inserted sequence holds either `x` or an
/// element of `s`.
proof fn lemma_insert_by_cpu_desc_membership(s: Seq<Process>, x: Process, i: int)
    requires
        0 <= i < insert_by_cpu_desc(s, x).len(),
    ensures
        insert_by_cpu_desc(s, x)[i] == x || s.contains(insert_by_cpu_desc(s, x)[i]),
    decreases s.len(),
{
    lemma_insert_by_cpu_desc_len(s, x);
    if s.len() == 0 {
    } else if s.last().cpu_usage >= x.cpu_usage {
    } else {
        let t = s.drop_last();
        lemma_insert_by_cpu_desc_len(t, x);
        if i < insert_by_cpu_desc(t, x).len() {
            lemma_insert_by_cpu_desc_membership(t, x, i);
            if insert_by_cpu_desc(t, x)[i] == x {
            } else {
                assert(s.contains(insert_by_cpu_desc(t, x)[i])) by {
                    let j = choose|j: int| 0 <= j < t.len() && t[j] == insert_by_cpu_desc(t, x)[i];
                    assert(s[j] == insert_by_cpu_desc(t, x)[i]);
                }
            }
        } else {
            assert(insert_by_cpu_desc(s, x)[i] == s.last());
        }
    }
}

/// Where the insertion lands: if everything from `j` on has CPU usage
/// below `x`'s and the element before `j` (if any) does not, then
/// inserting `x` into sorted `s` splits `s` exactly at `j`.
proof fn lemma_insert_by_cpu_desc_split(s: Seq<Process>, x: Process, j: int)
    requires
        sorted_by_cpu_desc(s),
        0 <= j <= s.len(),
        forall|k: int| j <= k < s.len() ==> s[k].cpu_usage < x.cpu_usage,
        j > 0 ==> s[j - 1].cpu_usage >= x.cpu_usage,
    ensures
        insert_by_cpu_desc(s, x) == s.subrange(0, j) + seq![x] + s.subrange(j, s.len() as int),
    decreases s.len(),
{
    if j == s.len() {
        if s.len() == 0 {
            assert(insert_by_cpu_desc(s, x) =~= s.subrange(0, j) + seq![x] + s.subrange(j, s.len() as int));
        } else {
            assert(s.last().cpu_usage >= x.cpu_usage);
            assert(insert_by_cpu_desc(s, x) =~= s.subrange(0, j) + seq![x] + s.subrange(j, s.len() as int));
        }
    } else {
        assert(s.last().cpu_usage < x.cpu_usage);
        let t = s.drop_last();
        assert(sorted_by_cpu_desc(t));
        lemma_insert_by_cpu_desc_split(t, x, j);
        assert(insert_by_cpu_desc(s, x) =~= s.subrange(0, j) + seq![x] + s.subrange(j, s.len() as int));
    }
}

/// The process-table ordering law: sorting by CPU usage descending
/// yields a sorted sequence.
pub proof fn lemma_sort_by_cpu_desc_sorted(s: Seq<Process>)
    ensures
        sorted_by_cpu_desc(sort_by_cpu_desc_spec(s)),
        sort_by_cpu_desc_spec(s).len() == s.len(),
    decreases s.len(),
{
    if s.len() == 0 {
    } else {
        lemma_sort_by_cpu_desc_sorted(s.drop_last());
        lemma_insert_by_cpu_desc_sorted(sort_by_cpu_desc_spec(s.drop_last()), s.last());
        lemma_insert_by_cpu_desc_len(sort_by_cpu_desc_spec(s.drop_last()), s.last());
    }
}

proof fn lemma_insert_by_cpu_desc_multiset(s: Seq<Process>, x: Process)
    ensures
        insert_by_cpu_desc(s, x).to_multiset() == s.to_multiset().insert(x),
    decreases s.len(),
{
    if s.len() == 0 {
        assert(s =~= Seq::<Process>::empty());
        s.to_multiset_ensures();
        assert(seq![x] =~= s.push(x));
        assert(s.push(x).to_multiset() =~= s.to_multiset().insert(x));
    } else if s.last().cpu_usage >= x.cpu_usage {
        s.to_multiset_ensures();
        assert(s.push(x).to_multiset() =~= s.to_multiset().insert(x));
    } else {
        let t = s.drop_last();
        let u = insert_by_cpu_desc(t, x);
        lemma_insert_by_cpu_desc_multiset(t, x);
        t.to_multiset_ensures();
        u.to_multiset_ensures();
        assert(t.push(s.last()) =~= s);
        assert(s.to_multiset() == t.push(s.last()).to_multiset());
        assert(t.push(s.last()).to_multiset() =~= t.to_multiset().insert(s.last()));
        assert(u.push(s.last()).to_multiset() =~= u.to_multiset().insert(s.last()));
        // the two multiset inserts commute
        assert(t.to_multiset().insert(x).insert(s.last()) =~= t.to_multiset().insert(
            s.last(),
        ).insert(x));
    }
}

/// The process-table reordering law: the sorted table holds exactly the
/// rows of the input, as a multiset.
pub proof fn lemma_sort_by_cpu_desc_permutes(s: Seq<Process>)
    ensures
        sort_by_cpu_desc_spec(s).to_multiset() == s.to_multiset(),
    decreases s.len(),
{
    if s.len() == 0 {
        assert(s =~= Seq::<Process>::empty());
    } else {
        let t = s.drop_last();
        lemma_sort_by_cpu_desc_permutes(t);
        lemma_insert_by_cpu_desc_multiset(sort_by_cpu_desc_spec(t), s.last());
        t.to_multiset_ensures();
        assert(t.push(s.last()) =~= s);
        assert(s.to_multiset() == t.push(s.last()).to_multiset());
        assert(t.push(s.last()).to_multiset() =~= t.to_multiset().insert(s.last()));
        assert(sort_by_cpu_desc_spec(s).to_multiset() == sort_by_cpu_desc_spec(
            t,
        ).to_multiset().insert(s.last()));
    }
}

proof fn lemma_insert_by_cpu_desc_filter(s: Seq<Process>, x: Process, c: u32)
    ensures
        insert_by_cpu_desc(s, x).filter(|p: Process| p.cpu_usage == c) == if x.cpu_usage == c {
            s.filter(|p: Process| p.cpu_usage == c).push(x)
        } else {
            s.filter(|p: Process| p.cpu_usage == c)
        },
    decreases s.len(),
{
    let pred = |p: Process| p.cpu_usage == c;
    if s.len() == 0 {
        assert(seq![x] =~= Seq::<Process>::empty().push(x));
        reveal_with_fuel(Seq::filter, 2);
    } else if s.last().cpu_usage >= x.cpu_usage {
        assert(s.push(x).drop_last() =~= s);
        reveal_with_fuel(Seq::filter, 1);
        assert(s.push(x).filter(pred) == if pred(x) {
            s.filter(pred).push(x)
        } else {
            s.filter(pred)
        });
    } else {
        let t = s.drop_last();
        let u = insert_by_cpu_desc(t, x);
        lemma_insert_by_cpu_desc_filter(t, x, c);
        assert(u.push(s.last()).drop_last() =~= u);
        reveal_with_fuel(Seq::filter, 1);
        assert(u.push(s.last()).filter(pred) == if pred(s.last()) {
            u.filter(pred).push(s.last())
        } else {
            u.filter(pred)
        });
        assert(t.push(s.last()) =~= s);
        assert(s.filter(pred) == if pred(s.last()) {
            t.filter(pred).push(s.last())
        } else {
            t.filter(pred)
        });
        if x.cpu_usage == c {
            // s.last().cpu_usage < x.cpu_usage == c, so s.last() is not kept
            assert(!pred(s.last()));
        }
    }
}

/// The process-table stability law: for any CPU value `c`, the rows with
/// that CPU usage appear in the sorted table in the same order as in the
/// input (ties are broken by original position).
pub proof fn lemma_sort_by_cpu_desc_stable(s: Seq<Process>, c: u32)
    ensures
        sort_by_cpu_desc_spec(s).filter(|p: Process| p.cpu_usage == c) == s.filter(
            |p: Process| p.cpu_usage == c,
        ),
    decreases s.len(),
{
    let pred = |p: Process| p.cpu_usage == c;
    if s.len() == 0 {
        reveal_with_fuel(Seq::filter, 1);
    } else {
        let t = s.drop_last();
        lemma_sort_by_cpu_desc_stable(t, c);
        lemma_insert_by_cpu_desc_filter(sort_by_cpu_desc_spec(t), s.last(), c);
        assert(t.push(s.last()) =~= s);
        reveal_with_fuel(Seq::filter, 1);
        assert(s.filter(pred) == if pred(s.last()) {
            t.filter(pred).push(s.last())
        } else {
            t.filter(pred)
        });
    }
}

/// Sorts the rows in place by CPU usage, highest first, with a stable
/// insertion sort: the result is exactly the stable descending ordering
/// of the input.
#[verifier::loop_isolation(false)]
pub fn sort_most_consume_cpu(processes: &mut Vec<Process>)
    ensures
        final(processes)@ == sort_by_cpu_desc_spec(old(processes)@),
        sorted_by_cpu_desc(final(processes)@),
{
    let ghost orig = processes@;
    let mut i: usize = 0;
    while i < processes.len()
        invariant
            i <= processes@.len(),
            processes@.len() == orig.len(),
            processes@.subrange(0, i as int) == sort_by_cpu_desc_spec(orig.subrange(0, i as int)),
            processes@.subrange(i as int, orig.len() as int) == orig.subrange(i as int, orig.len() as int),
        decreases orig.len() - i,
    {
        let ghost prefix = processes@.subrange(0, i as int);
        let ghost x = processes@[i as int];
        let mut j: usize = i;
        while j > 0 && processes[j - 1].cpu_usage < processes[i].cpu_usage
            invariant
                j <= i,
                forall|k: int| j <= k < i ==> processes@[k].cpu_usage < x.cpu_usage,
            decreases j,
        {
            j = j - 1;
        }
        proof {
            lemma_sort_by_cpu_desc_sorted(orig.subrange(0, i as int));
            assert(sorted_by_cpu_desc(prefix));
            lemma_insert_by_cpu_desc_split(prefix, x, j as int);
        }
        let ghost v0 = processes@;
        let moved = processes.remove(i);
        let ghost v1 = processes@;
        processes.insert(j, moved);
        proof {
            v0.remove_ensures(i as int);
            v1.insert_ensures(j as int, x);
            assert(x == orig.subrange(i as int, orig.len() as int)[0]);
            assert(orig.subrange(0, i as int + 1).drop_last() =~= orig.subrange(0, i as int));
            assert(orig.subrange(0, i as int + 1).last() == orig[i as int]);
            assert(processes@.subrange(0, i as int + 1) =~= prefix.subrange(0, j as int) + seq![x]
                + prefix.subrange(j as int, prefix.len() as int));
            assert(processes@.subrange(0, i as int + 1) == sort_by_cpu_desc_spec(orig.subrange(0, i as int + 1)));
            assert forall|k: int| i + 1 <= k < orig.len() implies processes@[k] == orig[k] by {
                assert(v1[k - 1] == v0[k]);
                assert(v0[k] == orig.subrange(i as int, orig.len() as int)[k - i]);
            }
            assert(processes@.subrange(i as int + 1, orig.len() as int) =~= orig.subrange(
                i as int + 1,
                orig.len() as int,
            ));
        }
        i = i + 1;
    }
    proof {
        assert(orig.subrange(0, orig.len() as int) =~= orig);
        assert(processes@.subrange(0, orig.len() as int) =~= processes@);
        lemma_sort_by_cpu_desc_sorted(orig);
    }
}

/// What the metrics provider reports for one process before the sampler
/// has filtered it: usage in hundredths of a percent, and the owning
/// user if the user record could be resolved.
#[derive(Debug, Clone, PartialEq)]
pub struct RawProcess {
    pub pid: u32,
    pub name: String,
    pub user: Option<String>,
    pub cpu_usage: u32,
    pub mem_usage: u32,
}

/// The process sampler keeps an entry only when both usages are
/// positive: a zero is "no signal", not a valid reading.
pub open spec fn raw_kept(r: RawProcess) -> bool {
    r.cpu_usage > 0 && r.mem_usage > 0
}

/// Relates a built row to the raw entry it came from: identity and CPU
/// usage carried over, memory usage rounded to a whole percent, and a
/// missing user record replaced by a placeholder rather than failing
/// the cycle.
pub open spec fn is_sample_of(p: Process, r: RawProcess) -> bool {
    &&& p.pid == r.pid
    &&& p.process_name == r.name
    &&& (match r.user {
        Some(u) => p.user == u,
        None => p.user@ == "unknown"@,
    })
    &&& p.cpu_usage == r.cpu_usage
    &&& p.mem_usage == spec_round_to_whole(r.mem_usage)
}

/// One process-sampler cycle's transform: drops raw entries with no CPU
/// or memory signal and builds a row from each kept entry, in order.
#[verifier::loop_isolation(false)]
pub fn sample_processes(raw: Vec<RawProcess>) -> (out: Vec<Process>)
    ensures
        out@.len() == raw@.filter(|r: RawProcess| raw_kept(r)).len(),
        forall|k: int|
            0 <= k < out@.len() ==> is_sample_of(
                out@[k],
                raw@.filter(|r: RawProcess| raw_kept(r))[k],
            ),
{
    let ghost all = raw@;
    let mut raw = raw;
    let mut out: Vec<Process> = Vec::new();
    proof {
        assert(all.subrange(0, 0) =~= Seq::<RawProcess>::empty());
        reveal_with_fuel(Seq::filter, 1);
    }
    while raw.len() > 0
        invariant
            raw@.len() <= all.len(),
            raw@ =~= all.subrange(all.len() - raw@.len(), all.len() as int),
            out@.len() == all.subrange(0, all.len() - raw@.len()).filter(
                |r: RawProcess| raw_kept(r),
            ).len(),
            forall|k: int|
                0 <= k < out@.len() ==> is_sample_of(
                    out@[k],
                    all.subrange(0, all.len() - raw@.len()).filter(|r: RawProcess| raw_kept(r))[k],
                ),
        decreases raw@.len(),
    {
        let ghost i = all.len() - raw@.len();
        let ghost done = all.subrange(0, i);
        let r = raw.remove(0);
        assert(r == all[i]);
        assert(raw@ =~= all.subrange(all.len() - raw@.len(), all.len() as int));
        if r.cpu_usage > 0 && r.mem_usage > 0 {
            let cpu = r.cpu_usage;
            let mem = r.mem_usage;
            let user = match r.user {
                Some(u) => u,
                None => String::from_str("unknown"),
            };
            let row = Process::default().set_pid(r.pid).set_process_name(r.name).set_user(
                user,
            ).set_cpu_usage(cpu).set_mem_usage(mem).build().unwrap();
            out.push(row);
        }
        proof {
            let pred = |r: RawProcess| raw_kept(r);
            assert(done.push(all[i]) =~= all.subrange(0, i + 1));
            reveal_with_fuel(Seq::filter, 1);
            assert(done.push(all[i]).drop_last() =~= done);
            assert(all.subrange(0, i + 1).filter(pred) == if pred(all[i]) {
                done.filter(pred).push(all[i])
            } else {
                done.filter(pred)
            });
        }
    }
    proof {
        assert(all.subrange(0, all.len() as int) =~= all);
    }
    out
}

/// A row is shown in the process table only when its CPU usage reaches
/// the visibility floor.
pub open spec fn visible(p: Process) -> bool {
    p.cpu_usage >= VISIBILITY_FLOOR_CENTI
}

/// Rebuilds the process table for one cycle: drops rows below the
/// visibility floor, then orders the rest by CPU usage descending,
/// stably. Rebuilt wholesale, so terminated processes never linger.
#[verifier::loop_isolation(false)]
pub fn rebuild_table(processes: Vec<Process>) -> (table: Vec<Process>)
    ensures
        table@ == sort_by_cpu_desc_spec(processes@.filter(|p: Process| visible(p))),
        sorted_by_cpu_desc(table@),
{
    let ghost all = processes@;
    let mut processes = processes;
    let mut kept: Vec<Process> = Vec::new();
    proof {
        assert(all.subrange(0, 0) =~= Seq::<Process>::empty());
        reveal_with_fuel(Seq::filter, 1);
    }
    while processes.len() > 0
        invariant
            processes@.len() <= all.len(),
            processes@ =~= all.subrange(all.len() - processes@.len(), all.len() as int),
            kept@ == all.subrange(0, all.len() - processes@.len()).filter(
                |p: Process| visible(p),
            ),
        decreases processes@.len(),
    {
        let ghost i = all.len() - processes@.len();
        let ghost done = all.subrange(0, i);
        let p = processes.remove(0);
        assert(p == all[i]);
        assert(processes@ =~= all.subrange(all.len() - processes@.len(), all.len() as int));
        if p.cpu_usage >= VISIBILITY_FLOOR_CENTI {
            kept.push(p);
        }
        proof {
            let pred = |p: Process| visible(p);
            assert(done.push(all[i]) =~= all.subrange(0, i + 1));
            reveal_with_fuel(Seq::filter, 1);
            assert(done.push(all[i]).drop_last() =~= done);
            assert(all.subrange(0, i + 1).filter(pred) == if pred(all[i]) {
                done.filter(pred).push(all[i])
            } else {
                done.filter(pred)
            });
        }
    }
    proof {
        assert(all.subrange(0, all.len() as int) =~= all);
    }
    sort_most_consume_cpu(&mut kept);
    kept
}

} // verus!
