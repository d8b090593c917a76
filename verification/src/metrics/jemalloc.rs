//! Allocator statistics and the gauges they are published as.

use vstd::prelude::*;

verus! {

#[derive(Debug, Clone, Copy, PartialEq, Eq, Structural)]
pub struct TotalStats {
    pub allocated: u64,
    pub active: u64,
    pub metadata: u64,
    pub resident: u64,
    pub mapped: u64,
    pub retained: u64,
}

#[derive(Debug, Clone, Copy, PartialEq, Eq, Structural)]
pub struct BinStats {
    pub nmalloc: u64,
    pub ndalloc: u64,
    pub nrequests: u64,
}

#[derive(Debug, Clone, PartialEq, Eq)]
pub struct MergedArenaStats {
    pub bins: Vec<BinStats>,
}

#[derive(Debug, Clone, PartialEq, Eq)]
pub struct ArenaStats {
    pub merged: MergedArenaStats,
}

#[derive(Debug, Clone, Copy, PartialEq, Eq, Structural)]
pub struct BinConstants {
    pub size: u64,
}

#[derive(Debug, Clone, PartialEq, Eq)]
pub struct ArenaConstants {
    pub bin: Vec<BinConstants>,
}

#[derive(Debug, Clone, PartialEq, Eq)]
pub struct JemallocStats {
    pub total: TotalStats,
    pub arena_constants: ArenaConstants,
    pub arena_stats: ArenaStats,
}

/// One gauge to set: its name, the size class it is labelled with (for the
/// per-bin gauges), and its value.
#[derive(Debug, Clone, Copy, PartialEq, Eq)]
pub struct GaugeUpdate {
    pub name: &'static str,
    pub bin_size: Option<u64>,
    pub value: u64,
}

/// Mathematical value of a [`GaugeUpdate`].
pub ghost struct Gauge {
    pub name: Seq<char>,
    pub bin_size: Option<u64>,
    pub value: u64,
}

impl View for GaugeUpdate {
    type V = Gauge;

    open spec fn view(&self) -> Gauge {
        Gauge { name: self.name@, bin_size: self.bin_size, value: self.value }
    }
}

/// The views of a list of gauge updates.
pub open spec fn gauges(updates: Seq<GaugeUpdate>) -> Seq<Gauge> {
    Seq::new(updates.len(), |i: int| updates[i]@)
}

/// The six gauges of the totals.
pub open spec fn total_gauges(total: TotalStats) -> Seq<Gauge> {
    seq![
        Gauge { name: "jemalloc_memory_allocated"@, bin_size: None, value: total.allocated },
        Gauge { name: "jemalloc_memory_active"@, bin_size: None, value: total.active },
        Gauge { name: "jemalloc_memory_metadata"@, bin_size: None, value: total.metadata },
        Gauge { name: "jemalloc_memory_resident"@, bin_size: None, value: total.resident },
        Gauge { name: "jemalloc_memory_mapped"@, bin_size: None, value: total.mapped },
        Gauge { name: "jemalloc_memory_retained"@, bin_size: None, value: total.retained },
    ]
}

/// The four gauges of one size class: allocations, deallocations, requests,
/// and the regions in use, which is allocations less deallocations.
pub open spec fn bin_gauges(size: u64, bin: BinStats) -> Seq<Gauge> {
    seq![
        Gauge { name: "jemalloc_memory_bin_nmalloc"@, bin_size: Some(size), value: bin.nmalloc },
        Gauge { name: "jemalloc_memory_bin_ndalloc"@, bin_size: Some(size), value: bin.ndalloc },
        Gauge { name: "jemalloc_memory_bin_nrequests"@, bin_size: Some(size), value: bin.nrequests },
        Gauge {
            name: "jemalloc_memory_bin_nactive"@,
            bin_size: Some(size),
            value: (bin.nmalloc - bin.ndalloc) as u64,
        },
    ]
}

/// The gauges of the first `n` size classes, in order.
pub open spec fn bins_gauges(constants: Seq<BinConstants>, bins: Seq<BinStats>, n: nat) -> Seq<
    Gauge,
>
    decreases n,
{
    if n == 0 {
        Seq::empty()
    } else {
        bins_gauges(constants, bins, (n - 1) as nat) + bin_gauges(
            constants[n - 1].size,
            bins[n - 1],
        )
    }
}

/// The number of size classes that have both a constant and statistics.
pub open spec fn paired(stats: JemallocStats) -> nat {
    if stats.arena_constants.bin@.len() <= stats.arena_stats.merged.bins@.len() {
        stats.arena_constants.bin@.len()
    } else {
        stats.arena_stats.merged.bins@.len()
    }
}

/// The gauges to publish for `stats`: the six totals, then four gauges for
/// every size class that has both a constant and statistics.
pub fn update_jemalloc_metrics(stats: &JemallocStats) -> (updates: Vec<GaugeUpdate>)
    requires
        forall|i: int|
            0 <= i < paired(*stats) ==> (#[trigger] stats.arena_stats.merged.bins@[i]).ndalloc
                <= stats.arena_stats.merged.bins@[i].nmalloc,
    ensures
        gauges(updates@) == total_gauges(stats.total) + bins_gauges(
            stats.arena_constants.bin@,
            stats.arena_stats.merged.bins@,
            paired(*stats),
        ),
{
    let total = &stats.total;
    let mut updates: Vec<GaugeUpdate> = Vec::new();
    updates.push(GaugeUpdate { name: "jemalloc_memory_allocated", bin_size: None, value: total.allocated });
    updates.push(GaugeUpdate { name: "jemalloc_memory_active", bin_size: None, value: total.active });
    updates.push(GaugeUpdate { name: "jemalloc_memory_metadata", bin_size: None, value: total.metadata });
    updates.push(GaugeUpdate { name: "jemalloc_memory_resident", bin_size: None, value: total.resident });
    updates.push(GaugeUpdate { name: "jemalloc_memory_mapped", bin_size: None, value: total.mapped });
    updates.push(GaugeUpdate { name: "jemalloc_memory_retained", bin_size: None, value: total.retained });
    assert(gauges(updates@) =~= total_gauges(stats.total));
    let constants = &stats.arena_constants.bin;
    let bins = &stats.arena_stats.merged.bins;
    let n = if constants.len() <= bins.len() {
        constants.len()
    } else {
        bins.len()
    };
    let mut i: usize = 0;
    while i < n
        invariant
            i <= n,
            n == paired(*stats),
            constants == &stats.arena_constants.bin,
            bins == &stats.arena_stats.merged.bins,
            forall|j: int| 0 <= j < n ==> (#[trigger] bins@[j]).ndalloc <= bins@[j].nmalloc,
            gauges(updates@) == total_gauges(stats.total) + bins_gauges(
                constants@,
                bins@,
                i as nat,
            ),
        decreases n - i,
    {
        let size = constants[i].size;
        let bin = &bins[i];
        let ghost before = gauges(updates@);
        assert(bins@[i as int].ndalloc <= bins@[i as int].nmalloc);
        updates.push(GaugeUpdate { name: "jemalloc_memory_bin_nmalloc", bin_size: Some(size), value: bin.nmalloc });
        updates.push(GaugeUpdate { name: "jemalloc_memory_bin_ndalloc", bin_size: Some(size), value: bin.ndalloc });
        updates.push(GaugeUpdate { name: "jemalloc_memory_bin_nrequests", bin_size: Some(size), value: bin.nrequests });
        updates.push(GaugeUpdate { name: "jemalloc_memory_bin_nactive", bin_size: Some(size), value: bin.nmalloc - bin.ndalloc });
        proof {
            assert(gauges(updates@) =~= before + bin_gauges(size, *bin));
            assert(bins_gauges(constants@, bins@, (i + 1) as nat) == bins_gauges(
                constants@,
                bins@,
                i as nat,
            ) + bin_gauges(size, *bin));
            assert(before + bin_gauges(size, *bin) =~= total_gauges(stats.total) + bins_gauges(
                constants@,
                bins@,
                (i + 1) as nat,
            ));
        }
        i = i + 1;
    }
    updates
}

} // verus!
