//! What the renderer shows, computed from a snapshot: texts, gauge levels and
//! chart points.

use vstd::prelude::*;
use crate::metrics::{Metrics, SyncState};
use crate::smoothing::{smooth_serie, smoothed};

verus! {

/// Hundredths of a percent in one percent: the unit of the CPU window.
pub const CPU_SCALE: u64 = 100;

/// Smoothing window of the CPU chart.
pub const CPU_GRAPH_SMOOTHING: usize = 10;

/// Smoothing window of the CPU gauge.
pub const CPU_GAUGE_SMOOTHING: usize = 20;

/// Smoothing window of the memory chart.
pub const MEMORY_GRAPH_SMOOTHING: usize = 7;

/// The decimal digit `d`, for `d < 10`.
pub open spec fn digit_char(d: nat) -> char {
    seq!['0', '1', '2', '3', '4', '5', '6', '7', '8', '9'][d as int]
}

/// The decimal writing of `n`, without leading zeros.
pub open spec fn decimal(n: nat) -> Seq<char>
    decreases n,
{
    if n < 10 {
        seq![digit_char(n)]
    } else {
        decimal(n / 10).push(digit_char(n % 10))
    }
}

fn digit_str(d: u64) -> (r: &'static str)
    requires
        d < 10,
    ensures
        r@ == seq![digit_char(d as nat)],
{
    proof {
        reveal_strlit("0123456789");
    }
    let r = "0123456789".substring_char(d as usize, d as usize + 1);
    assert(r@ =~= seq![digit_char(d as nat)]);
    r
}

/// `n` written in decimal.
pub fn decimal_text(n: u64) -> (r: String)
    ensures
        r@ == decimal(n as nat),
    decreases n,
{
    if n < 10 {
        String::from_str(digit_str(n))
    } else {
        let mut s = decimal_text(n / 10);
        s.append(digit_str(n % 10));
        s
    }
}

/// The text shown for a sync status: the three block numbers while syncing,
/// a fixed text otherwise, and the failure's own text when the query failed.
pub open spec fn sync_text_of(syncing: Result<SyncState, String>) -> Seq<char> {
    match syncing {
        Ok(SyncState::Syncing { starting_block, current_block, highest_block }) => "Starting: "@
            + decimal(starting_block as nat) + " Current: "@ + decimal(current_block as nat)
            + " Highest: "@ + decimal(highest_block as nat),
        Ok(SyncState::NotSyncing) => "Not Syncing"@,
        Err(e) => e@,
    }
}

/// The text shown for a sync status.
pub fn sync_text(syncing: &Result<SyncState, String>) -> (r: String)
    ensures
        r@ == sync_text_of(*syncing),
{
    match syncing {
        Ok(SyncState::Syncing { starting_block, current_block, highest_block }) => {
            let mut s = String::from_str("Starting: ");
            let a = decimal_text(*starting_block);
            s.append(a.as_str());
            s.append(" Current: ");
            let b = decimal_text(*current_block);
            s.append(b.as_str());
            s.append(" Highest: ");
            let c = decimal_text(*highest_block);
            s.append(c.as_str());
            s
        },
        Ok(SyncState::NotSyncing) => String::from_str("Not Syncing"),
        Err(e) => e.clone(),
    }
}

/// Colour of a gauge.
#[derive(Clone, Copy, Debug, PartialEq, Eq, Structural)]
pub enum GaugeColor {
    Green,
    Orange,
    Red,
}

/// An alerting gauge is green up to a third, orange up to two thirds, red
/// above; a gauge that does not alert is always green.
pub open spec fn gauge_color_of(percent: u16, alert_mode: bool) -> GaugeColor {
    if !alert_mode || percent <= 100int / 3 {
        GaugeColor::Green
    } else if percent <= 200int / 3 {
        GaugeColor::Orange
    } else {
        GaugeColor::Red
    }
}

/// Colour of a gauge at `percent`.
pub fn gauge_color(percent: u16, alert_mode: bool) -> (r: GaugeColor)
    ensures
        r == gauge_color_of(percent, alert_mode),
{
    if !alert_mode || percent <= 100u16 / 3 {
        GaugeColor::Green
    } else if percent <= 200u16 / 3 {
        GaugeColor::Orange
    } else {
        GaugeColor::Red
    }
}

/// How full a gauge at `percent` is drawn: never beyond 100.
pub fn gauge_fill(percent: u16) -> (r: u16)
    ensures
        r == if percent < 100 { percent } else { 100 },
{
    if percent < 100 {
        percent
    } else {
        100
    }
}

/// `part` as a percentage of `whole`, rounded down and capped at `u16::MAX`; a
/// positive part of nothing is the cap, nothing of nothing is zero.
pub open spec fn ratio_percent_of(part: u64, whole: u64) -> u16 {
    if whole == 0 {
        if part == 0 {
            0
        } else {
            0xFFFF
        }
    } else if (part as int) * 100 / (whole as int) > 0xFFFF {
        0xFFFF
    } else {
        ((part as int) * 100 / (whole as int)) as u16
    }
}

/// `part` as a percentage of `whole`.
pub fn ratio_percent(part: u64, whole: u64) -> (r: u16)
    ensures
        r == ratio_percent_of(part, whole),
{
    if whole == 0 {
        if part == 0 {
            0
        } else {
            0xFFFF
        }
    } else {
        let p = (part as u128) * 100 / (whole as u128);
        if p > 0xFFFF {
            0xFFFF
        } else {
            p as u16
        }
    }
}

/// The text the size formatter gives for a number of bytes, in binary units.
pub uninterp spec fn binary_size_text(bytes: u64) -> Seq<char>;

/// Relies on `humansize::format_size` with the `BINARY` options: the text depends
/// on the byte count alone.
#[verifier::external_body]
fn format_binary_size(bytes: u64) -> (r: String)
    ensures
        r@ == binary_size_text(bytes),
{
    humansize::format_size(bytes, humansize::BINARY)
}

/// A storage line: its label followed by the formatted size.
pub fn labelled_size(label: &str, size_text: &str) -> (r: String)
    ensures
        r@ == label@ + size_text@,
{
    let mut s = String::from_str(label);
    s.append(size_text);
    s
}

/// The value the CPU gauge shows, in percent, from the CPU window smoothed for
/// the gauge: the newest point's value, or zero when the window is too short to
/// give a point.
pub open spec fn cpu_gauge_of(cpu: Seq<u64>) -> u16 {
    let pts = smoothed(cpu, CPU_GAUGE_SMOOTHING as nat);
    if pts.len() == 0 {
        0
    } else if pts.last().1 as int / CPU_SCALE as int > 0xFFFF {
        0xFFFF
    } else {
        (pts.last().1 as int / CPU_SCALE as int) as u16
    }
}

impl Metrics {
    /// Points of the CPU chart, in hundredths of a percent.
    pub fn cpu_points(&self) -> (r: Vec<(u64, u64)>)
        ensures
            r@ == smoothed(self.cpu_usage@, CPU_GRAPH_SMOOTHING as nat),
    {
        let values = self.cpu_usage.values();
        smooth_serie(values.as_slice(), CPU_GRAPH_SMOOTHING)
    }

    /// Points of the memory chart, in bytes.
    pub fn memory_points(&self) -> (r: Vec<(u64, u64)>)
        ensures
            r@ == smoothed(self.memory_usage@, MEMORY_GRAPH_SMOOTHING as nat),
    {
        let values = self.memory_usage.values();
        smooth_serie(values.as_slice(), MEMORY_GRAPH_SMOOTHING)
    }

    /// The percentage the CPU gauge shows.
    pub fn cpu_percent(&self) -> (r: u16)
        ensures
            r == cpu_gauge_of(self.cpu_usage@),
    {
        let values = self.cpu_usage.values();
        let pts = smooth_serie(values.as_slice(), CPU_GAUGE_SMOOTHING);
        let n = pts.len();
        if n == 0 {
            0
        } else {
            let p = pts[n - 1].1 / CPU_SCALE;
            if p > 0xFFFF {
                0xFFFF
            } else {
                p as u16
            }
        }
    }

    /// The percentage of the machine's memory that the newest sample uses; zero
    /// for an empty window.
    pub fn memory_percent(&self) -> (r: u16)
        ensures
            self.memory_usage@.len() == 0 ==> r == 0,
            self.memory_usage@.len() > 0 ==> r == ratio_percent_of(
                self.memory_usage@.last(),
                self.total_memory,
            ),
    {
        match self.memory_usage.last() {
            Some(m) => ratio_percent(m, self.total_memory),
            None => 0,
        }
    }

    /// The percentage of the disk that the storage directory uses.
    pub fn storage_percent(&self) -> (r: u16)
        ensures
            r == ratio_percent_of(self.disk_usage, self.disk_size),
    {
        ratio_percent(self.disk_usage, self.disk_size)
    }

    /// The three storage lines: total disk space, the node's use, available space.
    pub fn storage_lines(&self) -> (r: (String, String, String))
        ensures
            r.0@ == "Total Disk Space: "@ + binary_size_text(self.disk_size),
            r.1@ == "Node Disk Usage: "@ + binary_size_text(self.disk_usage),
            r.2@ == "Available Space: "@ + binary_size_text(self.available_storage),
    {
        let total = format_binary_size(self.disk_size);
        let used = format_binary_size(self.disk_usage);
        let available = format_binary_size(self.available_storage);
        (
            labelled_size("Total Disk Space: ", total.as_str()),
            labelled_size("Node Disk Usage: ", used.as_str()),
            labelled_size("Available Space: ", available.as_str()),
        )
    }
}

} // verus!
