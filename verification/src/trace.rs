//! Per-kernel dispatch counters, kept while dispatch tracing is enabled.

use vstd::prelude::*;

use crate::kernel::KernelName;
use crate::source::Source;

verus! {

/// One counter: the kernel, identified by its module and entry, and the
/// number of dispatches recorded for it.
pub type TraceEntry = ((Source, KernelName), u64);

/// Dispatch counters, one per kernel that was dispatched at least once
/// since the counters were last drained or reset.
#[derive(Debug)]
pub struct TraceTable {
    entries: Vec<TraceEntry>,
}

/// Number of dispatches that the counters `s` record for `(source, name)`.
pub open spec fn count_in(s: Seq<TraceEntry>, source: Source, name: KernelName) -> nat
    decreases s.len(),
{
    if s.len() == 0 {
        0
    } else {
        count_in(s.drop_last(), source, name) + (if s.last().0 == (source, name) {
            s.last().1 as nat
        } else {
            0
        })
    }
}

/// No kernel has two counters in `s`.
pub open spec fn distinct_kernels(s: Seq<TraceEntry>) -> bool {
    forall|i: int, j: int| 0 <= i < j < s.len() ==> s[i].0 != s[j].0
}

/// Every counter in `s` has counted at least one dispatch.
pub open spec fn counts_positive(s: Seq<TraceEntry>) -> bool {
    forall|i: int| 0 <= i < s.len() ==> #[trigger] s[i].1 >= 1
}

proof fn lemma_count_absent(s: Seq<TraceEntry>, source: Source, name: KernelName)
    requires
        forall|i: int| 0 <= i < s.len() ==> s[i].0 != (source, name),
    ensures
        count_in(s, source, name) == 0,
    decreases s.len(),
{
    if s.len() > 0 {
        lemma_count_absent(s.drop_last(), source, name);
    }
}

proof fn lemma_count_update(s: Seq<TraceEntry>, i: int, e: TraceEntry, source: Source, name: KernelName)
    requires
        0 <= i < s.len(),
        e.0 == s[i].0,
    ensures
        count_in(s.update(i, e), source, name) + (if s[i].0 == (source, name) {
            s[i].1 as nat
        } else {
            0
        }) == count_in(s, source, name) + (if s[i].0 == (source, name) {
            e.1 as nat
        } else {
            0
        }),
    decreases s.len(),
{
    let t = s.update(i, e);
    if i < s.len() - 1 {
        assert(t.drop_last() =~= s.drop_last().update(i, e));
        lemma_count_update(s.drop_last(), i, e, source, name);
    } else {
        assert(t.drop_last() =~= s.drop_last());
    }
}

proof fn lemma_count_single(s: Seq<TraceEntry>, i: int)
    requires
        0 <= i < s.len(),
        distinct_kernels(s),
    ensures
        count_in(s, s[i].0.0, s[i].0.1) == s[i].1,
    decreases s.len(),
{
    let k = s[i].0;
    if i == s.len() - 1 {
        lemma_count_absent(s.drop_last(), k.0, k.1);
    } else {
        lemma_count_single(s.drop_last(), i);
    }
}

/// With one counter per kernel, the number of dispatches recorded for a
/// kernel is the value of its counter, and 0 when it has none.
pub proof fn lemma_count_reads_counter(s: Seq<TraceEntry>, source: Source, name: KernelName)
    requires
        distinct_kernels(s),
    ensures
        forall|i: int| 0 <= i < s.len() && #[trigger] s[i].0 == (source, name) ==> count_in(s, source, name) == s[i].1,
        (forall|i: int| 0 <= i < s.len() ==> #[trigger] s[i].0 != (source, name)) ==> count_in(s, source, name) == 0,
{
    assert forall|i: int| 0 <= i < s.len() && #[trigger] s[i].0 == (source, name) implies count_in(s, source, name)
        == s[i].1 by {
        lemma_count_single(s, i);
    }
    if forall|i: int| 0 <= i < s.len() ==> #[trigger] s[i].0 != (source, name) {
        lemma_count_absent(s, source, name);
    }
}

impl TraceTable {
    #[verifier::type_invariant]
    spec fn inv(self) -> bool {
        &&& distinct_kernels(self.entries@)
        &&& counts_positive(self.entries@)
    }

    /// The counters, in the order in which their kernels were first
    /// dispatched.
    pub closed spec fn entries(self) -> Seq<TraceEntry> {
        self.entries@
    }

    /// Number of dispatches recorded for `(source, name)`.
    pub open spec fn count(self, source: Source, name: KernelName) -> nat {
        count_in(self.entries(), source, name)
    }

    /// Number of dispatches recorded for `(source, name)`.
    pub fn count_of(&self, source: Source, name: KernelName) -> (r: u64)
        ensures
            r == self.count(source, name),
    {
        proof {
            use_type_invariant(self);
        }
        let mut i: usize = 0;
        while i < self.entries.len()
            invariant
                i <= self.entries@.len(),
                distinct_kernels(self.entries@),
                forall|j: int| 0 <= j < i ==> self.entries@[j].0 != (source, name),
            decreases self.entries@.len() - i,
        {
            if self.entries[i].0.0 == source && self.entries[i].0.1 == name {
                proof {
                    lemma_count_single(self.entries@, i as int);
                }
                return self.entries[i].1;
            }
            i = i + 1;
        }
        proof {
            lemma_count_absent(self.entries@, source, name);
        }
        0
    }

    /// No dispatch recorded yet.
    pub fn new() -> (r: Self)
        ensures
            r.entries() == Seq::<TraceEntry>::empty(),
    {
        TraceTable { entries: Vec::new() }
    }
}

/// Counts one dispatch of `(source, name)`: its counter goes up by one,
/// or, when it has none yet, a counter of 1 is appended; the other
/// counters are left as they are.
pub fn trace_count(trace: &mut TraceTable, source: Source, name: KernelName)
    requires
        old(trace).count(source, name) < u64::MAX,
    ensures
        forall|i: int|
            0 <= i < old(trace).entries().len() && #[trigger] old(trace).entries()[i].0 == (source, name)
                ==> final(trace).entries() == old(trace).entries().update(
                i,
                ((source, name), (old(trace).entries()[i].1 + 1) as u64),
            ),
        (forall|i: int| 0 <= i < old(trace).entries().len() ==> #[trigger] old(trace).entries()[i].0 != (source, name))
            ==> final(trace).entries() == old(trace).entries().push(((source, name), 1u64)),
        forall|s: Source, n: KernelName|
            #[trigger] final(trace).count(s, n) == old(trace).count(s, n) + (if (s, n) == (source, name) {
                1nat
            } else {
                0nat
            }),
{
    proof {
        use_type_invariant(&*trace);
    }
    let ghost old_entries = trace.entries@;
    let len = trace.entries.len();
    let mut i: usize = 0;
    while i < len
        invariant
            len == trace.entries@.len(),
            trace.entries@ == old_entries,
            distinct_kernels(old_entries),
            counts_positive(old_entries),
            count_in(old_entries, source, name) < u64::MAX,
            old_entries == old(trace).entries(),
            i <= len,
            forall|j: int| 0 <= j < i ==> old_entries[j].0 != (source, name),
        decreases len - i,
    {
        let e = trace.entries[i];
        if e.0.0 == source && e.0.1 == name {
            proof {
                lemma_count_single(old_entries, i as int);
            }
            let new_entry: TraceEntry = ((source, name), e.1 + 1);
            let mut entries: Vec<TraceEntry> = Vec::new();
            std::mem::swap(&mut entries, &mut trace.entries);
            entries.set(i, new_entry);
            proof {
                assert(distinct_kernels(entries@));
                assert(counts_positive(entries@));
            }
            trace.entries = entries;
            proof {
                assert forall|s: Source, n: KernelName|
                    #[trigger] count_in(trace.entries@, s, n) == count_in(old_entries, s, n) + (if (s, n) == (source, name) {
                        1nat
                    } else {
                        0nat
                    }) by {
                    lemma_count_update(old_entries, i as int, new_entry, s, n);
                }
            }
            return;
        }
        i = i + 1;
    }
    proof {
        lemma_count_absent(old_entries, source, name);
    }
    let mut entries: Vec<TraceEntry> = Vec::new();
    std::mem::swap(&mut entries, &mut trace.entries);
    entries.push(((source, name), 1));
    proof {
        assert(distinct_kernels(entries@));
        assert(counts_positive(entries@));
    }
    trace.entries = entries;
    proof {
        assert(trace.entries@.drop_last() =~= old_entries);
    }
}

/// Drains the per-kernel dispatch counters: returns one counter per kernel
/// dispatched since the last drain or reset, with the number of its
/// dispatches, and starts counting afresh.
pub fn trace_counts(trace: &mut TraceTable) -> (r: Vec<TraceEntry>)
    ensures
        r@ == old(trace).entries(),
        distinct_kernels(r@),
        forall|i: int| 0 <= i < r@.len() ==> #[trigger] r@[i].1 == old(trace).count(r@[i].0.0, r@[i].0.1),
        forall|i: int| 0 <= i < r@.len() ==> #[trigger] r@[i].1 >= 1,
        forall|s: Source, n: KernelName|
            #[trigger] old(trace).count(s, n) > 0 ==> exists|i: int| 0 <= i < r@.len() && #[trigger] r@[i].0 == (s, n),
        final(trace).entries() == Seq::<TraceEntry>::empty(),
{
    proof {
        use_type_invariant(&*trace);
    }
    let ghost old_entries = trace.entries@;
    let mut r: Vec<TraceEntry> = Vec::new();
    std::mem::swap(&mut r, &mut trace.entries);
    proof {
        assert forall|i: int| 0 <= i < r@.len() implies #[trigger] r@[i].1 == count_in(old_entries, r@[i].0.0, r@[i].0.1) by {
            lemma_count_single(old_entries, i);
        }
        assert forall|s: Source, n: KernelName| #[trigger] count_in(old_entries, s, n) > 0 implies exists|i: int|
            0 <= i < r@.len() && #[trigger] r@[i].0 == (s, n) by {
            if forall|i: int| 0 <= i < old_entries.len() ==> old_entries[i].0 != (s, n) {
                lemma_count_absent(old_entries, s, n);
            }
        }
    }
    r
}

/// Clears the per-kernel dispatch counters.
pub fn trace_reset(trace: &mut TraceTable)
    ensures
        final(trace).entries() == Seq::<TraceEntry>::empty(),
{
    *trace = TraceTable::new();
}

} // verus!
