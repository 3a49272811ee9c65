//! The textual debug report over one snapshot.
//!
//! The report holds the CPU and RAM percentages to two decimals, the
//! cumulative network totals in gigabytes, one usage line per disk, and —
//! when debug information is enabled — a timestamp line supplied by the
//! caller. Writing the report to storage is the caller's affair.

use vstd::prelude::*;
use vstd::string::*;

use crate::percent::Percent;
use crate::rate::{counter_totals, spec_recv_total, spec_trans_total};
use crate::render::{gb_hundredths, spec_gb_hundredths};
use crate::settings::AppSettings;
use crate::snapshot::Snapshot;
use crate::text::{dec_u128, spec_dec, spec_two_dec, two_dec_u128};

verus! {

/// One disk's report line: its number counted from one and its usage
/// percentage to two decimals.
pub open spec fn spec_debug_disk_line(d: crate::snapshot::DiskReading, i: int) -> Seq<char>
    recommends
        d.wf(),
        i >= 0,
{
    "Disk "@ + spec_dec((i + 1) as nat) + " Usage: "@ + spec_two_dec(
        d.spec_usage().spec_rounded_hundredths(),
    ) + "%\n"@
}

/// The report lines of the first `k` disks, in order.
pub open spec fn spec_debug_disk_lines(disks: Seq<crate::snapshot::DiskReading>, k: int) -> Seq<
    char,
>
    decreases k,
{
    if k <= 0 {
        Seq::<char>::empty()
    } else {
        spec_debug_disk_lines(disks, k - 1) + spec_debug_disk_line(disks[k - 1], k - 1)
    }
}

/// The full debug report for a snapshot: CPU and RAM usage to two
/// decimals, cumulative network totals in gigabytes, one line per disk,
/// and a timestamp line exactly when debug information is enabled.
pub open spec fn spec_debug_log(snap: Snapshot, settings: AppSettings, ts: Seq<char>) -> Seq<char>
    recommends
        snap.wf(),
{
    let cpu = Percent { num: snap.cpu_e4 as u128, den: 10000 };
    "Average CPU Usage: "@ + spec_two_dec(cpu.spec_rounded_hundredths()) + "%\n"@
        + "Average RAM Usage: "@ + spec_two_dec(snap.spec_ram_usage().spec_rounded_hundredths())
        + "%\n"@ + "Total Network Received: "@ + spec_two_dec(
        spec_gb_hundredths(spec_recv_total(snap.interfaces@)),
    ) + " GB\n"@ + "Total Network Transmitted: "@ + spec_two_dec(
        spec_gb_hundredths(spec_trans_total(snap.interfaces@)),
    ) + " GB\n"@ + spec_debug_disk_lines(snap.disks@, snap.disks@.len() as int) + (
    if settings.show_debug_info {
        "Timestamp: "@ + ts + "\n"@
    } else {
        Seq::<char>::empty()
    })
}

/// Builds the debug report text for a snapshot. The timestamp string is
/// whatever clock reading the caller passes; it appears in the report
/// exactly when debug information is enabled.
pub fn generate_debug_log(snap: &Snapshot, settings: &AppSettings, timestamp: &str) -> (r: String)
    requires
        snap.wf(),
    ensures
        r@ == spec_debug_log(*snap, *settings, timestamp@),
{
    let cpu = Percent::from_e4(snap.cpu_e4);
    let ram = Percent::from_ratio((snap.memory_used as u128) * 100, snap.memory_total);
    let mut r = String::from_str("Average CPU Usage: ");
    let cpu_txt = two_dec_u128(cpu.rounded_hundredths() as u128);
    r.append(cpu_txt.as_str());
    r.append("%\n");
    r.append("Average RAM Usage: ");
    let ram_txt = two_dec_u128(ram.rounded_hundredths() as u128);
    r.append(ram_txt.as_str());
    r.append("%\n");
    let totals = counter_totals(&snap.interfaces);
    r.append("Total Network Received: ");
    let recv_txt = two_dec_u128(gb_hundredths(totals.0));
    r.append(recv_txt.as_str());
    r.append(" GB\n");
    r.append("Total Network Transmitted: ");
    let trans_txt = two_dec_u128(gb_hundredths(totals.1));
    r.append(trans_txt.as_str());
    r.append(" GB\n");
    let ghost head: Seq<char> = r@;
    let mut i: usize = 0;
    while i < snap.disks.len()
        invariant
            i <= snap.disks@.len(),
            snap.wf(),
            r@ =~= head + spec_debug_disk_lines(snap.disks@, i as int),
        decreases snap.disks@.len() - i,
    {
        let d = &snap.disks[i];
        let usage = d.usage_percent();
        r.append("Disk ");
        let number = dec_u128((i as u128) + 1);
        r.append(number.as_str());
        r.append(" Usage: ");
        let pct_txt = two_dec_u128(usage.rounded_hundredths() as u128);
        r.append(pct_txt.as_str());
        r.append("%\n");
        i = i + 1;
        proof {
            assert(r@ =~= head + spec_debug_disk_lines(snap.disks@, i as int));
        }
    }
    if settings.show_debug_info {
        r.append("Timestamp: ");
        r.append(timestamp);
        r.append("\n");
    }
    proof {
        assert(r@ =~= spec_debug_log(*snap, *settings, timestamp@));
    }
    r
}

} // verus!
