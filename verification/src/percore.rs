//! What each core publishes about itself for the others to read.
//!
//! A core counts its interrupts in storage of its own. Other cores see the
//! counts only through the registry, into which each core publishes them
//! under its identifier.

use vstd::prelude::*;

verus! {

/// The number of interrupt vectors of a core.
pub const IRQ_VECTORS: usize = 256;

/// The interrupt counts that one core has published.
pub struct CoreStatistics {
    pub core_id: u32,
    /// How often each interrupt has occurred, by vector.
    pub counters: Vec<u64>,
}

/// The mathematical content of a `CoreStatistics`.
pub struct CoreStatisticsView {
    pub core_id: u32,
    pub counters: Seq<u64>,
}

impl View for CoreStatistics {
    type V = CoreStatisticsView;

    open spec fn view(&self) -> CoreStatisticsView {
        CoreStatisticsView { core_id: self.core_id, counters: self.counters@ }
    }
}

/// One line of the interrupt statistics.
#[derive(Clone, Copy, Debug, PartialEq, Eq, Structural)]
pub struct StatisticsLine {
    pub core_id: u32,
    /// The interrupt vector.
    pub irq: u32,
    /// How often the interrupt has occurred: never zero.
    pub count: u64,
}

/// The entries as mathematical values.
pub open spec fn entry_views(entries: Seq<CoreStatistics>) -> Seq<CoreStatisticsView> {
    entries.map_values(|entry: CoreStatistics| entry@)
}

/// The entries stand in the order of their identifiers, each core once.
pub open spec fn sorted_by_core(entries: Seq<CoreStatisticsView>) -> bool {
    forall|i: int, j: int|
        0 <= i < j < entries.len() ==> (#[trigger] entries[i]).core_id < (
        #[trigger] entries[j]).core_id
}

/// The entries with `entry` put in its place: instead of the entry of the
/// same core if there is one, and else between the cores that come before
/// and after it.
pub open spec fn publish(entries: Seq<CoreStatisticsView>, entry: CoreStatisticsView) -> Seq<
    CoreStatisticsView,
>
    decreases entries.len(),
{
    if entries.len() == 0 {
        seq![entry]
    } else if entries.last().core_id < entry.core_id {
        entries.push(entry)
    } else if entries.last().core_id == entry.core_id {
        entries.drop_last().push(entry)
    } else {
        publish(entries.drop_last(), entry).push(entries.last())
    }
}

/// What the core `core_id` has published, if it has published anything.
pub open spec fn published(entries: Seq<CoreStatisticsView>, core_id: u32) -> Option<Seq<u64>>
    decreases entries.len(),
{
    if entries.len() == 0 {
        None
    } else if entries.last().core_id == core_id {
        Some(entries.last().counters)
    } else {
        published(entries.drop_last(), core_id)
    }
}

/// The lines for the first `n` vectors of one core: one for each interrupt
/// that has occurred, in the order of the vectors.
pub open spec fn core_lines(entry: CoreStatisticsView, n: int) -> Seq<StatisticsLine>
    decreases n,
{
    if n <= 0 {
        Seq::empty()
    } else if entry.counters[n - 1] > 0 {
        core_lines(entry, n - 1).push(
            StatisticsLine {
                core_id: entry.core_id,
                irq: (n - 1) as u32,
                count: entry.counters[n - 1],
            },
        )
    } else {
        core_lines(entry, n - 1)
    }
}

/// The lines for the first `n` cores, core after core.
pub open spec fn statistics_lines(entries: Seq<CoreStatisticsView>, n: int) -> Seq<StatisticsLine>
    decreases n,
{
    if n <= 0 {
        Seq::empty()
    } else {
        statistics_lines(entries, n - 1) + core_lines(
            entries[n - 1],
            entries[n - 1].counters.len() as int,
        )
    }
}

/// The index across cores of what each core has published.
pub struct CoreRegistry {
    entries: Vec<CoreStatistics>,
}

impl View for CoreRegistry {
    type V = Seq<CoreStatisticsView>;

    closed spec fn view(&self) -> Seq<CoreStatisticsView> {
        entry_views(self.entries@)
    }
}

impl CoreRegistry {
    /// The cores stand in the order of their identifiers, and each has one
    /// counter for every interrupt vector.
    pub open spec fn wf(&self) -> bool {
        &&& sorted_by_core(self@)
        &&& forall|i: int|
            0 <= i < self@.len() ==> (#[trigger] self@[i]).counters.len() == IRQ_VECTORS
    }

    /// A registry into which no core has published yet.
    pub fn new() -> (registry: CoreRegistry)
        ensures
            registry.wf(),
            registry@.len() == 0,
    {
        CoreRegistry { entries: Vec::new() }
    }

    /// The number of cores that have published.
    pub fn len(&self) -> (n: usize)
        ensures
            n == self@.len(),
    {
        self.entries.len()
    }
}

/// Where an entry goes in sorted entries: it replaces the entry at `i` if
/// that is of the same core, and is inserted before it otherwise.
pub proof fn lemma_publish_at(entries: Seq<CoreStatisticsView>, entry: CoreStatisticsView, i: int)
    requires
        sorted_by_core(entries),
        0 <= i <= entries.len(),
        forall|j: int| 0 <= j < i ==> (#[trigger] entries[j]).core_id < entry.core_id,
        forall|j: int| i <= j < entries.len() ==> (#[trigger] entries[j]).core_id >= entry.core_id,
    ensures
        publish(entries, entry) == if i < entries.len() && entries[i].core_id == entry.core_id {
            entries.update(i, entry)
        } else {
            entries.insert(i, entry)
        },
    decreases entries.len(),
{
    let n = entries.len() as int;
    if n == 0 {
        assert(seq![entry] =~= entries.insert(0, entry));
    } else if entries.last().core_id < entry.core_id {
        assert(i == n) by {
            if i < n {
                assert(entries[n - 1].core_id >= entry.core_id);
            }
        }
        assert(entries.push(entry) =~= entries.insert(n, entry));
    } else if entries.last().core_id == entry.core_id {
        assert(i == n - 1) by {
            if i < n - 1 {
                assert(entries[i].core_id >= entry.core_id);
                assert(entries[i].core_id < entries[n - 1].core_id);
            }
            if i == n {
                assert(entries[n - 1].core_id < entry.core_id);
            }
        }
        assert(entries.drop_last().push(entry) =~= entries.update(n - 1, entry));
    } else {
        assert(i <= n - 1) by {
            if i == n {
                assert(entries[n - 1].core_id < entry.core_id);
            }
        }
        let rest = entries.drop_last();
        assert(sorted_by_core(rest)) by {
            assert forall|a: int, b: int| 0 <= a < b < rest.len() implies (
            #[trigger] rest[a]).core_id < (#[trigger] rest[b]).core_id by {
                assert(rest[a] == entries[a] && rest[b] == entries[b]);
            }
        }
        assert forall|j: int| 0 <= j < i implies (#[trigger] rest[j]).core_id < entry.core_id by {
            assert(rest[j] == entries[j]);
        }
        assert forall|j: int| i <= j < rest.len() implies (#[trigger] rest[j]).core_id
            >= entry.core_id by {
            assert(rest[j] == entries[j]);
        }
        lemma_publish_at(rest, entry, i);
        if i < n - 1 && entries[i].core_id == entry.core_id {
            assert(rest[i] == entries[i]);
            assert(rest.update(i, entry).push(entries.last()) =~= entries.update(i, entry));
        } else {
            if i < n - 1 {
                assert(rest[i] == entries[i]);
            }
            assert(rest.insert(i, entry).push(entries.last()) =~= entries.insert(i, entry));
        }
    }
}

/// In sorted entries, what a core has published is the entry that bears
/// its identifier.
pub proof fn lemma_published_at(entries: Seq<CoreStatisticsView>, core_id: u32, i: int)
    requires
        sorted_by_core(entries),
        0 <= i < entries.len(),
        entries[i].core_id == core_id,
    ensures
        published(entries, core_id) == Some(entries[i].counters),
    decreases entries.len(),
{
    let n = entries.len() as int;
    if i < n - 1 {
        assert(entries[i].core_id < entries[n - 1].core_id);
        let rest = entries.drop_last();
        assert forall|a: int, b: int| 0 <= a < b < rest.len() implies (#[trigger] rest[a]).core_id
            < (#[trigger] rest[b]).core_id by {
            assert(rest[a] == entries[a] && rest[b] == entries[b]);
        }
        assert(rest[i] == entries[i]);
        lemma_published_at(rest, core_id, i);
    }
}

/// A core of which no entry bears the identifier has published nothing.
pub proof fn lemma_not_published(entries: Seq<CoreStatisticsView>, core_id: u32)
    requires
        forall|j: int| 0 <= j < entries.len() ==> (#[trigger] entries[j]).core_id != core_id,
    ensures
        published(entries, core_id).is_none(),
    decreases entries.len(),
{
    if entries.len() > 0 {
        let rest = entries.drop_last();
        assert(entries[entries.len() - 1].core_id != core_id);
        assert forall|j: int| 0 <= j < rest.len() implies (#[trigger] rest[j]).core_id
            != core_id by {
            assert(rest[j] == entries[j]);
        }
        lemma_not_published(rest, core_id);
    }
}

/// What a core publishes is what a lookup of that core then finds, and the
/// lookup of every other core finds what it found before.
pub proof fn lemma_publish_then_lookup(
    entries: Seq<CoreStatisticsView>,
    entry: CoreStatisticsView,
    core_id: u32,
)
    ensures
        published(publish(entries, entry), core_id) == if core_id == entry.core_id {
            Some(entry.counters)
        } else {
            published(entries, core_id)
        },
    decreases entries.len(),
{
    if entries.len() == 0 {
        assert(seq![entry].drop_last() =~= entries);
    } else if entries.last().core_id < entry.core_id {
        assert(entries.push(entry).drop_last() =~= entries);
    } else if entries.last().core_id == entry.core_id {
        let rest = entries.drop_last();
        assert(rest.push(entry).drop_last() =~= rest);
    } else {
        let rest = entries.drop_last();
        lemma_publish_then_lookup(rest, entry, core_id);
        assert(publish(rest, entry).push(entries.last()).drop_last() =~= publish(rest, entry));
    }
}


impl CoreRegistry {
    /// Publishes the counts of a core, in place of what the core had
    /// published before.
    pub fn register(&mut self, entry: CoreStatistics)
        requires
            old(self).wf(),
            entry@.counters.len() == IRQ_VECTORS,
        ensures
            final(self).wf(),
            final(self)@ == publish(old(self)@, entry@),
    {
        let mut i: usize = 0;
        while i < self.entries.len() && self.entries[i].core_id < entry.core_id
            invariant
                i <= self.entries.len(),
                self.entries@ == old(self).entries@,
                forall|j: int| 0 <= j < i ==> (#[trigger] self@[j]).core_id < entry.core_id,
            decreases self.entries.len() - i,
        {
            assert(self@[i as int].core_id == self.entries@[i as int].core_id);
            i += 1;
        }
        let ghost before = old(self)@;
        let ghost new_entry = entry@;
        proof {
            assert forall|j: int| i <= j < before.len() implies (#[trigger] before[j]).core_id
                >= new_entry.core_id by {
                assert(before[i as int].core_id == self.entries@[i as int].core_id);
                if j > i {
                    assert(before[i as int].core_id < before[j].core_id);
                }
            }
            lemma_publish_at(before, new_entry, i as int);
        }
        if i < self.entries.len() && self.entries[i].core_id == entry.core_id {
            assert(before[i as int].core_id == self.entries@[i as int].core_id);
            self.entries[i] = entry;
            assert(self@ =~= before.update(i as int, new_entry));
        } else {
            assert(i < before.len() ==> before[i as int].core_id
                == self.entries@[i as int].core_id);
            self.entries.insert(i, entry);
            assert(self@ =~= before.insert(i as int, new_entry));
        }
        proof {
            let after = self@;
            assert forall|a: int, b: int| 0 <= a < b < after.len() implies (
            #[trigger] after[a]).core_id < (#[trigger] after[b]).core_id by {
                if after.len() == before.len() {
                    if a != i && b != i {
                        assert(after[a] == before[a] && after[b] == before[b]);
                    } else if a == i {
                        assert(after[b] == before[b]);
                        assert(before[i as int].core_id < before[b].core_id);
                    } else {
                        assert(after[a] == before[a]);
                    }
                } else {
                    let a0 = if a < i { a } else { a - 1 };
                    let b0 = if b < i { b } else { b - 1 };
                    if a != i {
                        assert(after[a] == before[a0]);
                    }
                    if b != i {
                        assert(after[b] == before[b0]);
                    }
                    if a != i && b != i {
                        assert(a0 < b0);
                    }
                }
            }
            assert forall|k: int| 0 <= k < after.len() implies (#[trigger] after[k]).counters.len()
                == IRQ_VECTORS by {
                if after.len() == before.len() {
                    if k != i {
                        assert(after[k] == before[k]);
                    }
                } else {
                    let k0 = if k < i { k } else { k - 1 };
                    if k != i {
                        assert(after[k] == before[k0]);
                    }
                }
            }
        }
    }

    /// The counts that the core `core_id` has published.
    pub fn lookup(&self, core_id: u32) -> (counters: Option<&Vec<u64>>)
        requires
            self.wf(),
        ensures
            counters.is_some() == published(self@, core_id).is_some(),
            counters matches Some(c) ==> Some(c@) == published(self@, core_id),
    {
        let mut i: usize = 0;
        while i < self.entries.len()
            invariant
                i <= self.entries.len(),
                self.wf(),
                forall|j: int| 0 <= j < i ==> (#[trigger] self@[j]).core_id != core_id,
            decreases self.entries.len() - i,
        {
            assert(self@[i as int] == self.entries@[i as int]@);
            if self.entries[i].core_id == core_id {
                proof {
                    lemma_published_at(self@, core_id, i as int);
                }
                return Some(&self.entries[i].counters);
            }
            i += 1;
        }
        proof {
            lemma_not_published(self@, core_id);
        }
        None
    }
}

/// Lists the interrupts that have occurred: for each core that has
/// published, in the order of the identifiers, one line for each vector
/// with a count above zero, in the order of the vectors.
pub fn print_statistics(registry: &CoreRegistry) -> (lines: Vec<StatisticsLine>)
    requires
        registry.wf(),
    ensures
        lines@ == statistics_lines(registry@, registry@.len() as int),
{
    let mut lines: Vec<StatisticsLine> = Vec::new();
    let mut k: usize = 0;
    while k < registry.entries.len()
        invariant
            k <= registry.entries.len(),
            registry.wf(),
            lines@ == statistics_lines(registry@, k as int),
        decreases registry.entries.len() - k,
    {
        let entry = &registry.entries[k];
        assert(registry@[k as int] == entry@);
        let ghost done = lines@;
        let mut n: usize = 0;
        assert(done + core_lines(entry@, 0) =~= done);
        while n < entry.counters.len()
            invariant
                n <= entry.counters.len(),
                entry.counters.len() == IRQ_VECTORS,
                lines@ == done + core_lines(entry@, n as int),
            decreases entry.counters.len() - n,
        {
            let count = entry.counters[n];
            if count > 0 {
                let line = StatisticsLine { core_id: entry.core_id, irq: n as u32, count };
                lines.push(line);
                assert(lines@ =~= done + core_lines(entry@, n as int).push(line));
            }
            n += 1;
        }
        k += 1;
    }
    lines
}

impl CoreStatistics {
    /// The statistics of a core on which no interrupt has occurred yet.
    pub fn new(core_id: u32) -> (statistics: CoreStatistics)
        ensures
            statistics@.core_id == core_id,
            statistics@.counters == Seq::new(IRQ_VECTORS as nat, |i: int| 0u64),
    {
        let counters: Vec<u64> = vec![0u64; IRQ_VECTORS];
        assert(counters@ =~= Seq::new(IRQ_VECTORS as nat, |i: int| 0u64));
        CoreStatistics { core_id, counters }
    }

    /// Counts one more occurrence of the interrupt `irq`.
    pub fn inc(&mut self, irq: u8)
        requires
            old(self)@.counters.len() == IRQ_VECTORS,
            old(self)@.counters[irq as int] < u64::MAX,
        ensures
            final(self)@ == (CoreStatisticsView {
                core_id: old(self)@.core_id,
                counters: old(self)@.counters.update(
                    irq as int,
                    (old(self)@.counters[irq as int] + 1) as u64,
                ),
            }),
    {
        let count = self.counters[irq as usize];
        self.counters[irq as usize] = count + 1;
    }
}

} // verus!
