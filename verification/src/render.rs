//! Rendering frames into colorized terminal lines.
//!
//! Bars are ten cells wide with positional coloring: the first five cells
//! green, the next two yellow, the rest orange, regardless of the overall
//! band of the percentage. Percent-number displays are colored by the band
//! of the value itself, with orange for critical CPU/RAM figures but red
//! for critical disk figures. Disk lines sit in an 80-character field and
//! gain a highlighted overload marker above 70% usage, a lower bound than
//! the 75% severity boundary.

use vstd::prelude::*;
use vstd::string::*;

use crate::percent::Percent;
use crate::settings::AppSettings;
use crate::severity::{SeverityBand, classify, spec_classify};
use crate::snapshot::{DiskReading, Frame};
use crate::text::{dec_u128, pad_to, repeat_str, spec_dec, spec_pad, spec_repeat, spec_two_dec,
    two_dec_u128};

verus! {

/// Hundredths of a gigabyte in `bytes`, rounded to the nearest hundredth.
pub open spec fn spec_gb_hundredths(bytes: nat) -> nat {
    (bytes * 100 + 536870912) / 1073741824
}

/// Hundredths of a kilobyte in `bytes`, rounded to the nearest hundredth.
pub open spec fn spec_kb_hundredths(bytes: nat) -> nat {
    (bytes * 100 + 512) / 1024
}

/// The ten-cell progress bar for `p`, with positional cell coloring.
pub open spec fn spec_progress_bar(p: Percent) -> Seq<char>
    recommends
        p.wf(),
{
    let filled = p.spec_fill();
    let bar = if p.num <= 50 * p.den {
        "\x1b[32m"@ + spec_repeat('#', filled) + "\x1b[0m"@
    } else if p.num <= 75 * p.den {
        "\x1b[32m"@ + spec_repeat('#', 5) + "\x1b[33m"@ + spec_repeat('#', (filled - 5) as nat)
            + "\x1b[0m"@
    } else {
        "\x1b[32m"@ + spec_repeat('#', 5) + "\x1b[33m"@ + spec_repeat('#', 2) + "\x1b[38;5;208m"@
            + spec_repeat('#', (filled - 7) as nat) + "\x1b[0m"@
    };
    "["@ + bar + spec_repeat(' ', (10 - filled) as nat) + "]"@
}

/// The rounded percent number for `p`, colored by its own severity band,
/// with orange for the critical band (the CPU/RAM palette).
pub open spec fn spec_load_display(p: Percent) -> Seq<char>
    recommends
        p.wf(),
{
    let code = match spec_classify(p) {
        SeverityBand::Normal => "\x1b[32m"@,
        SeverityBand::Warning => "\x1b[33m"@,
        SeverityBand::Critical => "\x1b[38;5;208m"@,
    };
    code + spec_dec(p.spec_rounded()) + "%"@ + "\x1b[0m"@
}

/// The rounded percent number for `p`, colored by its own severity band,
/// with red for the critical band (the disk palette).
pub open spec fn spec_disk_percentage(p: Percent) -> Seq<char>
    recommends
        p.wf(),
{
    let code = match spec_classify(p) {
        SeverityBand::Normal => "\x1b[32m"@,
        SeverityBand::Warning => "\x1b[33m"@,
        SeverityBand::Critical => "\x1b[31m"@,
    };
    code + spec_dec(p.spec_rounded()) + "%"@ + "\x1b[0m"@
}

/// The disk gauge chosen by the display mode: a bar, or the red-palette
/// percent number.
pub open spec fn spec_disk_load(p: Percent, settings: AppSettings) -> Seq<char>
    recommends
        p.wf(),
{
    if settings.show_progress_bars {
        spec_progress_bar(p)
    } else {
        spec_disk_percentage(p)
    }
}

/// The CPU/RAM gauge chosen by the display mode: a bar, or the
/// orange-palette percent number.
pub open spec fn spec_usage_gauge(p: Percent, settings: AppSettings) -> Seq<char>
    recommends
        p.wf(),
{
    if settings.show_progress_bars {
        spec_progress_bar(p)
    } else {
        spec_load_display(p)
    }
}

/// Whether a disk counts as overloaded: usage strictly above 70%, a
/// separate, lower threshold than the 75% severity boundary.
pub open spec fn spec_overloaded(d: DiskReading) -> bool {
    d.spec_used_bytes() * 100 > 70 * d.total_bytes
}

/// The highlighted marker appended to an overloaded disk's line.
pub open spec fn spec_overload_marker() -> Seq<char> {
    "\x1b[48;5;208m !!! overloaded \x1b[0m"@
}

/// The unpadded content of one disk line: the gauge, the disk's number
/// counted from one, and its used and total gigabytes to two decimals.
pub open spec fn spec_disk_base(d: DiskReading, idx: nat, settings: AppSettings) -> Seq<char>
    recommends
        d.wf(),
{
    "ROM "@ + spec_disk_load(d.spec_usage(), settings) + " (Disk "@ + spec_dec(idx + 1) + ": "@
        + spec_two_dec(spec_gb_hundredths(d.spec_used_bytes())) + " GB / "@ + spec_two_dec(
        spec_gb_hundredths(d.total_bytes as nat),
    ) + " GB)"@
}

/// One disk's full line: the base content left-aligned in an 80-character
/// field, followed by the overload marker exactly when the disk's usage
/// exceeds 70%.
pub open spec fn spec_disk_line(d: DiskReading, idx: nat, settings: AppSettings) -> Seq<char>
    recommends
        d.wf(),
{
    let padded = spec_pad(spec_disk_base(d, idx, settings), 80);
    if spec_overloaded(d) {
        padded + spec_overload_marker()
    } else {
        padded
    }
}

/// A throughput line: the label, then the byte count as kilobytes to two
/// decimals.
pub open spec fn spec_network_line(label: Seq<char>, bytes: nat) -> Seq<char> {
    label + spec_two_dec(spec_kb_hundredths(bytes)) + " KB/s"@
}

/// All lines of one rendered frame, in order: the CPU and RAM gauges, the
/// two throughput lines, a separator, then one line per disk.
pub open spec fn spec_render_frame(f: Frame, settings: AppSettings) -> Seq<Seq<char>>
    recommends
        f.wf(),
{
    seq![
        "CPU "@ + spec_usage_gauge(f.cpu, settings),
        "RAM "@ + spec_usage_gauge(f.ram, settings),
        spec_network_line("Network Received: "@, f.received as nat),
        spec_network_line("Network Transmitted: "@, f.transmitted as nat),
        spec_repeat('-', 50),
    ] + Seq::new(f.disks@.len(), |i: int| spec_disk_line(f.disks@[i], i as nat, settings))
}

/// Renders the ten-cell progress bar for `p`: `round(percent / 10)` cells
/// filled, the first five green, the next two yellow, the rest orange.
pub fn create_progress_bar(p: &Percent) -> (r: String)
    requires
        p.wf(),
    ensures
        r@ == spec_progress_bar(*p),
{
    proof {
        reveal_strlit("#");
        reveal_strlit(" ");
    }
    let filled = p.fill_cells();
    let band = classify(p);
    let mut r = String::from_str("[");
    match band {
        SeverityBand::Normal => {
            r.append("\x1b[32m");
            let hashes = repeat_str("#", filled);
            r.append(hashes.as_str());
            r.append("\x1b[0m");
        },
        SeverityBand::Warning => {
            proof {
                p.lemma_fill_ge_5();
            }
            r.append("\x1b[32m");
            let green = repeat_str("#", 5);
            r.append(green.as_str());
            r.append("\x1b[33m");
            let yellow = repeat_str("#", filled - 5);
            r.append(yellow.as_str());
            r.append("\x1b[0m");
        },
        SeverityBand::Critical => {
            proof {
                p.lemma_fill_ge_8();
            }
            r.append("\x1b[32m");
            let green = repeat_str("#", 5);
            r.append(green.as_str());
            r.append("\x1b[33m");
            let yellow = repeat_str("#", 2);
            r.append(yellow.as_str());
            r.append("\x1b[38;5;208m");
            let orange = repeat_str("#", filled - 7);
            r.append(orange.as_str());
            r.append("\x1b[0m");
        },
    }
    let spaces = repeat_str(" ", 10 - filled);
    r.append(spaces.as_str());
    r.append("]");
    proof {
        assert(r@ =~= spec_progress_bar(*p));
    }
    r
}

/// Renders the rounded percent number for `p` in the CPU/RAM palette:
/// green, yellow, or orange by the band of the value itself.
pub fn create_load_display(p: &Percent) -> (r: String)
    requires
        p.wf(),
    ensures
        r@ == spec_load_display(*p),
{
    let band = classify(p);
    let mut r = match band {
        SeverityBand::Normal => String::from_str("\x1b[32m"),
        SeverityBand::Warning => String::from_str("\x1b[33m"),
        SeverityBand::Critical => String::from_str("\x1b[38;5;208m"),
    };
    let pct = dec_u128(p.rounded() as u128);
    r.append(pct.as_str());
    r.append("%");
    r.append("\x1b[0m");
    proof {
        assert(r@ =~= spec_load_display(*p));
    }
    r
}

/// Renders the rounded percent number for `p` in the disk palette: green,
/// yellow, or red by the band of the value itself.
pub fn color_disk_percentage(p: &Percent) -> (r: String)
    requires
        p.wf(),
    ensures
        r@ == spec_disk_percentage(*p),
{
    let band = classify(p);
    let mut r = match band {
        SeverityBand::Normal => String::from_str("\x1b[32m"),
        SeverityBand::Warning => String::from_str("\x1b[33m"),
        SeverityBand::Critical => String::from_str("\x1b[31m"),
    };
    let pct = dec_u128(p.rounded() as u128);
    r.append(pct.as_str());
    r.append("%");
    r.append("\x1b[0m");
    proof {
        assert(r@ =~= spec_disk_percentage(*p));
    }
    r
}

/// The disk gauge for the current display mode: a progress bar when bars
/// are on, otherwise the red-palette percent number.
pub fn calculate_disk_load(p: &Percent, settings: &AppSettings) -> (r: String)
    requires
        p.wf(),
    ensures
        r@ == spec_disk_load(*p, *settings),
{
    if settings.show_progress_bars {
        create_progress_bar(p)
    } else {
        color_disk_percentage(p)
    }
}

/// Hundredths of a gigabyte in `bytes`, rounded to the nearest hundredth.
pub fn gb_hundredths(bytes: u128) -> (h: u128)
    ensures
        h == spec_gb_hundredths(bytes as nat),
{
    let q = bytes / 1073741824;
    let r = bytes % 1073741824;
    proof {
        assert(q <= u128::MAX / 1073741824) by (nonlinear_arith)
            requires
                q == bytes / 1073741824,
                bytes <= u128::MAX,
        ;
        assert(q * 100 + (r * 100 + 536870912) / 1073741824 <= u128::MAX) by (nonlinear_arith)
            requires
                q <= u128::MAX / 1073741824,
                r < 1073741824,
        ;
        assert(q * 100 + (r * 100 + 536870912) / 1073741824 == (bytes * 100 + 536870912)
            / 1073741824) by (nonlinear_arith)
            requires
                bytes == 1073741824 * q + r,
                0 <= r < 1073741824,
                0 <= q,
        ;
    }
    q * 100 + (r * 100 + 536870912) / 1073741824
}

/// Hundredths of a kilobyte in `bytes`, rounded to the nearest hundredth.
pub fn kb_hundredths(bytes: u128) -> (h: u128)
    ensures
        h == spec_kb_hundredths(bytes as nat),
{
    let q = bytes / 1024;
    let r = bytes % 1024;
    proof {
        assert(q <= u128::MAX / 1024) by (nonlinear_arith)
            requires
                q == bytes / 1024,
                bytes <= u128::MAX,
        ;
        assert(q * 100 + (r * 100 + 512) / 1024 <= u128::MAX) by (nonlinear_arith)
            requires
                q <= u128::MAX / 1024,
                r < 1024,
        ;
        assert(q * 100 + (r * 100 + 512) / 1024 == (bytes * 100 + 512) / 1024) by (nonlinear_arith)
            requires
                bytes == 1024 * q + r,
                0 <= r < 1024,
                0 <= q,
        ;
    }
    q * 100 + (r * 100 + 512) / 1024
}

/// Renders one disk's line: the gauge and capacity figures left-aligned in
/// an 80-character field, and the highlighted overload marker appended
/// exactly when the disk's usage exceeds 70%.
pub fn render_disk_line(d: &DiskReading, idx: u64, settings: &AppSettings) -> (r: String)
    requires
        d.wf(),
        idx < u64::MAX,
    ensures
        r@ == spec_disk_line(*d, idx as nat, *settings),
        spec_overloaded(*d) ==> r@ == spec_pad(spec_disk_base(*d, idx as nat, *settings), 80)
            + spec_overload_marker(),
        !spec_overloaded(*d) ==> r@ == spec_pad(spec_disk_base(*d, idx as nat, *settings), 80),
{
    let usage = d.usage_percent();
    let load = calculate_disk_load(&usage, settings);
    let used = d.used_bytes();
    let mut base = String::from_str("ROM ");
    base.append(load.as_str());
    base.append(" (Disk ");
    let number = dec_u128((idx as u128) + 1);
    base.append(number.as_str());
    base.append(": ");
    let used_gb = two_dec_u128(gb_hundredths(used as u128));
    base.append(used_gb.as_str());
    base.append(" GB / ");
    let total_gb = two_dec_u128(gb_hundredths(d.total_bytes as u128));
    base.append(total_gb.as_str());
    base.append(" GB)");
    proof {
        assert(base@ =~= spec_disk_base(*d, idx as nat, *settings));
    }
    let mut r = pad_to(base, 80);
    if usage.exceeds(70) {
        r.append("\x1b[48;5;208m !!! overloaded \x1b[0m");
    }
    r
}

/// Renders one throughput line: the label, then the byte count as
/// kilobytes per second to two decimals.
pub fn render_network_line(label: &str, bytes: u128) -> (r: String)
    ensures
        r@ == spec_network_line(label@, bytes as nat),
{
    let mut r = String::from_str(label);
    let kb = two_dec_u128(kb_hundredths(bytes));
    r.append(kb.as_str());
    r.append(" KB/s");
    proof {
        assert(r@ =~= spec_network_line(label@, bytes as nat));
    }
    r
}

/// The CPU/RAM gauge for the current display mode: a progress bar when
/// bars are on, otherwise the orange-palette percent number.
pub fn render_usage_gauge(p: &Percent, settings: &AppSettings) -> (r: String)
    requires
        p.wf(),
    ensures
        r@ == spec_usage_gauge(*p, *settings),
{
    if settings.show_progress_bars {
        create_progress_bar(p)
    } else {
        create_load_display(p)
    }
}

/// Renders a full frame into its lines, in order: CPU gauge, RAM gauge,
/// the two throughput lines, a 50-character separator, then one line per
/// disk. The output is a function of the frame and settings alone, so
/// identical inputs always render to identical lines.
pub fn render_frame(f: &Frame, settings: &AppSettings) -> (lines: Vec<String>)
    requires
        f.wf(),
    ensures
        lines.deep_view() == spec_render_frame(*f, *settings),
{
    proof {
        reveal_strlit("-");
    }
    let mut lines: Vec<String> = Vec::new();
    let mut cpu_line = String::from_str("CPU ");
    let cpu_gauge = render_usage_gauge(&f.cpu, settings);
    cpu_line.append(cpu_gauge.as_str());
    lines.push(cpu_line);
    let mut ram_line = String::from_str("RAM ");
    let ram_gauge = render_usage_gauge(&f.ram, settings);
    ram_line.append(ram_gauge.as_str());
    lines.push(ram_line);
    lines.push(render_network_line("Network Received: ", f.received));
    lines.push(render_network_line("Network Transmitted: ", f.transmitted));
    lines.push(repeat_str("-", 50));
    let ghost full: Seq<Seq<char>> = spec_render_frame(*f, *settings);
    proof {
        assert(lines@.len() == 5);
        assert(lines@[0]@ == full[0]);
        assert(lines@[1]@ == full[1]);
        assert(lines@[2]@ == full[2]);
        assert(lines@[3]@ == full[3]);
        assert(lines@[4]@ == full[4]);
    }
    let mut i: usize = 0;
    while i < f.disks.len()
        invariant
            i <= f.disks@.len(),
            f.wf(),
            full == spec_render_frame(*f, *settings),
            lines@.len() == 5 + i,
            forall|k: int| 0 <= k < lines@.len() ==> (#[trigger] lines@[k])@ == full[k],
        decreases f.disks@.len() - i,
    {
        let line = render_disk_line(&f.disks[i], i as u64, settings);
        lines.push(line);
        i = i + 1;
        proof {
            assert(lines@[5 + (i - 1)]@ == full[5 + (i - 1)]);
        }
    }
    proof {
        assert(lines.deep_view() =~= full);
    }
    lines
}

} // verus!
