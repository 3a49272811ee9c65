//! Network throughput from pairs of cumulative counter snapshots.
//!
//! Interfaces are paired positionally between the previous and the current
//! snapshot; the shorter list governs. A counter that decreased (reset or
//! hot-plug) contributes zero for that tick instead of underflowing.

use vstd::prelude::*;

verus! {

/// One network interface's cumulative byte counters at a snapshot.
pub struct IfaceCounters {
    pub name: String,
    pub received: u64,
    pub transmitted: u64,
}

/// Aggregated throughput over one sampling interval, in raw bytes.
#[derive(Clone, Copy, Debug, PartialEq, Eq, Structural)]
pub struct ThroughputSample {
    pub received: u128,
    pub transmitted: u128,
}

impl IfaceCounters {
    /// Builds a reading from an interface name and its two counters.
    pub fn new(name: String, received: u64, transmitted: u64) -> (r: IfaceCounters)
        ensures
            r.name == name,
            r.received == received,
            r.transmitted == transmitted,
    {
        IfaceCounters { name, received, transmitted }
    }
}

/// The guarded counter delta: `cur - prev` when the counter did not
/// decrease, and zero otherwise.
pub open spec fn spec_delta(prev: u64, cur: u64) -> nat {
    if cur >= prev {
        (cur - prev) as nat
    } else {
        0
    }
}

/// How many interface pairs take part: the length of the shorter list.
pub open spec fn spec_paired_len(prev: Seq<IfaceCounters>, cur: Seq<IfaceCounters>) -> int {
    if prev.len() <= cur.len() {
        prev.len() as int
    } else {
        cur.len() as int
    }
}

/// Sum of guarded received-counter deltas over the first `k` pairs.
pub open spec fn spec_recv_sum_upto(prev: Seq<IfaceCounters>, cur: Seq<IfaceCounters>, k: int) -> nat
    decreases k,
{
    if k <= 0 {
        0
    } else {
        spec_recv_sum_upto(prev, cur, k - 1) + spec_delta(
            prev[k - 1].received,
            cur[k - 1].received,
        )
    }
}

/// Sum of guarded transmitted-counter deltas over the first `k` pairs.
pub open spec fn spec_trans_sum_upto(prev: Seq<IfaceCounters>, cur: Seq<IfaceCounters>, k: int) -> nat
    decreases k,
{
    if k <= 0 {
        0
    } else {
        spec_trans_sum_upto(prev, cur, k - 1) + spec_delta(
            prev[k - 1].transmitted,
            cur[k - 1].transmitted,
        )
    }
}

/// The exact aggregated received-byte count for the interval.
pub open spec fn spec_recv_sum(prev: Seq<IfaceCounters>, cur: Seq<IfaceCounters>) -> nat {
    spec_recv_sum_upto(prev, cur, spec_paired_len(prev, cur))
}

/// The exact aggregated transmitted-byte count for the interval.
pub open spec fn spec_trans_sum(prev: Seq<IfaceCounters>, cur: Seq<IfaceCounters>) -> nat {
    spec_trans_sum_upto(prev, cur, spec_paired_len(prev, cur))
}

/// Sum of the received counters of the first `k` interfaces.
pub open spec fn spec_recv_total_upto(s: Seq<IfaceCounters>, k: int) -> nat
    decreases k,
{
    if k <= 0 {
        0
    } else {
        spec_recv_total_upto(s, k - 1) + s[k - 1].received as nat
    }
}

/// Sum of the transmitted counters of the first `k` interfaces.
pub open spec fn spec_trans_total_upto(s: Seq<IfaceCounters>, k: int) -> nat
    decreases k,
{
    if k <= 0 {
        0
    } else {
        spec_trans_total_upto(s, k - 1) + s[k - 1].transmitted as nat
    }
}

/// Sum of all interfaces' cumulative received counters.
pub open spec fn spec_recv_total(s: Seq<IfaceCounters>) -> nat {
    spec_recv_total_upto(s, s.len() as int)
}

/// Sum of all interfaces' cumulative transmitted counters.
pub open spec fn spec_trans_total(s: Seq<IfaceCounters>) -> nat {
    spec_trans_total_upto(s, s.len() as int)
}

/// A partial sum of `k` counters never exceeds `k` times the largest
/// counter value.
proof fn lemma_total_upto_bound(s: Seq<IfaceCounters>, k: int)
    requires
        k >= 0,
    ensures
        spec_recv_total_upto(s, k) <= k * (u64::MAX as nat),
        spec_trans_total_upto(s, k) <= k * (u64::MAX as nat),
    decreases k,
{
    if k > 0 {
        lemma_total_upto_bound(s, k - 1);
        assert(k * (u64::MAX as nat) == (k - 1) * (u64::MAX as nat) + u64::MAX) by (nonlinear_arith);
    }
}

/// Sums every interface's cumulative received and transmitted counters,
/// exactly.
pub fn counter_totals(ifaces: &Vec<IfaceCounters>) -> (t: (u128, u128))
    ensures
        t.0 == spec_recv_total(ifaces@),
        t.1 == spec_trans_total(ifaces@),
{
    let mut received: u128 = 0;
    let mut transmitted: u128 = 0;
    let mut i: usize = 0;
    while i < ifaces.len()
        invariant
            i <= ifaces@.len(),
            received == spec_recv_total_upto(ifaces@, i as int),
            transmitted == spec_trans_total_upto(ifaces@, i as int),
        decreases ifaces@.len() - i,
    {
        proof {
            lemma_total_upto_bound(ifaces@, i as int);
            assert((i as int) * (u64::MAX as nat) <= (usize::MAX as int) * (u64::MAX as nat))
                by (nonlinear_arith)
                requires
                    i <= usize::MAX,
            ;
        }
        received = received + (ifaces[i].received as u128);
        transmitted = transmitted + (ifaces[i].transmitted as u128);
        i = i + 1;
    }
    (received, transmitted)
}

/// A partial sum of `k` guarded deltas never exceeds `k` times the largest
/// counter value.
proof fn lemma_sum_upto_bound(prev: Seq<IfaceCounters>, cur: Seq<IfaceCounters>, k: int)
    requires
        k >= 0,
    ensures
        spec_recv_sum_upto(prev, cur, k) <= k * (u64::MAX as nat),
        spec_trans_sum_upto(prev, cur, k) <= k * (u64::MAX as nat),
    decreases k,
{
    if k > 0 {
        lemma_sum_upto_bound(prev, cur, k - 1);
        assert(k * (u64::MAX as nat) == (k - 1) * (u64::MAX as nat) + u64::MAX) by (nonlinear_arith);
    }
}

/// Aggregates the guarded per-interface counter deltas between two
/// snapshots into one throughput sample.
///
/// The result is the exact sum of the non-negative deltas over the paired
/// prefix of the two lists: a decreasing counter contributes exactly zero,
/// interfaces present in only one snapshot are ignored, and an empty list
/// yields zero throughput.
pub fn aggregate_throughput(prev: &Vec<IfaceCounters>, cur: &Vec<IfaceCounters>) -> (t: ThroughputSample)
    ensures
        t.received == spec_recv_sum(prev@, cur@),
        t.transmitted == spec_trans_sum(prev@, cur@),
{
    let n: usize = if prev.len() <= cur.len() {
        prev.len()
    } else {
        cur.len()
    };
    let mut received: u128 = 0;
    let mut transmitted: u128 = 0;
    let mut i: usize = 0;
    while i < n
        invariant
            n == spec_paired_len(prev@, cur@),
            n <= prev@.len() && n <= cur@.len(),
            i <= n,
            received == spec_recv_sum_upto(prev@, cur@, i as int),
            transmitted == spec_trans_sum_upto(prev@, cur@, i as int),
        decreases n - i,
    {
        proof {
            lemma_sum_upto_bound(prev@, cur@, i as int);
            assert((i as int) * (u64::MAX as nat) <= (usize::MAX as int) * (u64::MAX as nat))
                by (nonlinear_arith)
                requires
                    i <= usize::MAX,
            ;
        }
        let p = &prev[i];
        let c = &cur[i];
        if c.received >= p.received {
            received = received + ((c.received - p.received) as u128);
        }
        if c.transmitted >= p.transmitted {
            transmitted = transmitted + ((c.transmitted - p.transmitted) as u128);
        }
        i = i + 1;
    }
    ThroughputSample { received, transmitted }
}

} // verus!
