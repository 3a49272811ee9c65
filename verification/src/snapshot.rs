//! Point-in-time metric snapshots and the frames derived from them.

use vstd::prelude::*;

use crate::percent::Percent;
use crate::rate::{IfaceCounters, ThroughputSample, aggregate_throughput, spec_recv_sum,
    spec_trans_sum};

verus! {

/// One disk's capacity figures: total size and bytes still available.
#[derive(Clone, Copy, Debug, PartialEq, Eq, Structural)]
pub struct DiskReading {
    pub total_bytes: u64,
    pub available_bytes: u64,
}

impl DiskReading {
    /// Well-formed: a non-empty disk whose available bytes do not exceed
    /// its size.
    pub open spec fn wf(self) -> bool {
        self.total_bytes > 0 && self.available_bytes <= self.total_bytes
    }

    /// The bytes in use.
    pub open spec fn spec_used_bytes(self) -> nat {
        (self.total_bytes - self.available_bytes) as nat
    }

    /// The exact usage percentage, `used / total * 100`.
    pub open spec fn spec_usage(self) -> Percent {
        Percent { num: (self.spec_used_bytes() * 100) as u128, den: self.total_bytes }
    }

    /// Builds a reading from total and available byte counts.
    pub fn new(total_bytes: u64, available_bytes: u64) -> (d: DiskReading)
        requires
            total_bytes > 0,
            available_bytes <= total_bytes,
        ensures
            d.total_bytes == total_bytes,
            d.available_bytes == available_bytes,
            d.wf(),
    {
        DiskReading { total_bytes, available_bytes }
    }

    /// The bytes in use.
    pub fn used_bytes(&self) -> (r: u64)
        requires
            self.wf(),
        ensures
            r == self.spec_used_bytes(),
    {
        self.total_bytes - self.available_bytes
    }

    /// The exact usage percentage of this disk.
    pub fn usage_percent(&self) -> (p: Percent)
        requires
            self.wf(),
        ensures
            p == self.spec_usage(),
            p.wf(),
    {
        let used = self.total_bytes - self.available_bytes;
        Percent::from_ratio((used as u128) * 100, self.total_bytes)
    }
}

/// A point-in-time capture of all tracked metrics: global CPU usage in
/// ten-thousandths of a percent, memory byte counts, per-disk capacities
/// and per-interface cumulative network counters.
pub struct Snapshot {
    pub cpu_e4: u64,
    pub memory_used: u64,
    pub memory_total: u64,
    pub disks: Vec<DiskReading>,
    pub interfaces: Vec<IfaceCounters>,
}

impl Snapshot {
    /// Well-formed: CPU within 0..=100%, memory present and not
    /// over-committed, every disk reading well-formed.
    pub open spec fn wf(self) -> bool {
        &&& self.cpu_e4 <= 1000000
        &&& self.memory_total > 0
        &&& self.memory_used <= self.memory_total
        &&& forall|i: int| 0 <= i < self.disks@.len() ==> (#[trigger] self.disks@[i]).wf()
    }

    /// The exact RAM usage percentage, `used / total * 100`.
    pub open spec fn spec_ram_usage(self) -> Percent {
        Percent { num: (self.memory_used * 100) as u128, den: self.memory_total }
    }
}

/// Everything one rendered frame shows: CPU and RAM percentages, the disk
/// readings, and the interval's aggregated network byte counts.
pub struct Frame {
    pub cpu: Percent,
    pub ram: Percent,
    pub disks: Vec<DiskReading>,
    pub received: u128,
    pub transmitted: u128,
}

impl Frame {
    /// Well-formed: both percentages and every disk reading are.
    pub open spec fn wf(self) -> bool {
        &&& self.cpu.wf()
        &&& self.ram.wf()
        &&& forall|i: int| 0 <= i < self.disks@.len() ==> (#[trigger] self.disks@[i]).wf()
    }
}

/// Assembles the frame for one tick: the snapshot's CPU percentage, the
/// exact RAM percentage, the disk readings, and the exact guarded network
/// deltas against the previous tick's interface counters.
pub fn build_frame(prev_interfaces: &Vec<IfaceCounters>, snap: &Snapshot) -> (f: Frame)
    requires
        snap.wf(),
    ensures
        f.cpu == (Percent { num: snap.cpu_e4 as u128, den: 10000 }),
        f.ram == snap.spec_ram_usage(),
        f.disks@ == snap.disks@,
        f.received == spec_recv_sum(prev_interfaces@, snap.interfaces@),
        f.transmitted == spec_trans_sum(prev_interfaces@, snap.interfaces@),
        f.wf(),
{
    let cpu = Percent::from_e4(snap.cpu_e4);
    let ram = Percent::from_ratio((snap.memory_used as u128) * 100, snap.memory_total);
    let t: ThroughputSample = aggregate_throughput(prev_interfaces, &snap.interfaces);
    let mut disks: Vec<DiskReading> = Vec::new();
    let mut i: usize = 0;
    while i < snap.disks.len()
        invariant
            i <= snap.disks@.len(),
            disks@ =~= snap.disks@.subrange(0, i as int),
        decreases snap.disks@.len() - i,
    {
        disks.push(snap.disks[i]);
        i = i + 1;
    }
    proof {
        assert(disks@ =~= snap.disks@);
    }
    Frame { cpu, ram, disks, received: t.received, transmitted: t.transmitted }
}

} // verus!
