//! The published metrics snapshot and how one tick's sample updates it.

use vstd::prelude::*;
use crate::window::{Window, pushed, pushed_all, lemma_pushed_all_keeps_newest};

verus! {

/// Block-synchronisation status reported by the node.
#[derive(Clone, Copy, Debug, PartialEq, Eq, Structural)]
pub enum SyncState {
    NotSyncing,
    Syncing { starting_block: u64, current_block: u64, highest_block: u64 },
}

/// Everything read on one tick. `None` means the tracked process or the disk
/// could not be located this tick, which is not an error.
#[derive(Debug)]
pub struct Sample {
    /// Latest block number, or the text of the remote failure.
    pub block_number: Result<u64, String>,
    /// Sync status, or the text of the remote failure.
    pub syncing: Result<SyncState, String>,
    /// CPU use of the tracked process, in hundredths of a percent of the machine.
    pub cpu_usage: Option<u64>,
    /// Resident memory of the tracked process, in bytes.
    pub memory_usage: Option<u64>,
    /// Total space of the first disk, in bytes.
    pub disk_size: Option<u64>,
    /// Space used by the storage directory, in bytes.
    pub disk_usage: Option<u64>,
    /// Available space of the first disk, in bytes.
    pub available_storage: Option<u64>,
}

/// The value recorded for a reading: the reading itself, or zero when absent.
pub open spec fn or_zero(v: Option<u64>) -> u64 {
    match v {
        Some(x) => x,
        None => 0,
    }
}

impl Sample {
    /// The two samples read the same host metrics (CPU, memory and disks).
    pub open spec fn same_host_readings(self, other: Sample) -> bool {
        &&& self.cpu_usage == other.cpu_usage
        &&& self.memory_usage == other.memory_usage
        &&& self.disk_size == other.disk_size
        &&& self.disk_usage == other.disk_usage
        &&& self.available_storage == other.available_storage
    }
}

/// The snapshot handed to the renderer: one window per tracked series plus the
/// latest scalar readings.
pub struct Metrics {
    pub block_number: Result<u64, String>,
    pub syncing: Result<SyncState, String>,
    pub cpu_name: String,
    /// CPU use history, in hundredths of a percent, oldest first.
    pub cpu_usage: Window,
    /// Resident memory history, in bytes, oldest first.
    pub memory_usage: Window,
    pub total_memory: u64,
    pub disk_name: String,
    pub disk_size: u64,
    pub disk_usage: u64,
    pub available_storage: u64,
}

/// Mathematical model of a `Metrics` snapshot.
pub struct MetricsView {
    pub block_number: Result<u64, String>,
    pub syncing: Result<SyncState, String>,
    pub cpu_name: Seq<char>,
    pub cpu_usage: Seq<u64>,
    pub memory_usage: Seq<u64>,
    pub total_memory: u64,
    pub disk_name: Seq<char>,
    pub disk_size: u64,
    pub disk_usage: u64,
    pub available_storage: u64,
}

impl View for Metrics {
    type V = MetricsView;

    open spec fn view(&self) -> MetricsView {
        MetricsView {
            block_number: self.block_number,
            syncing: self.syncing,
            cpu_name: self.cpu_name@,
            cpu_usage: self.cpu_usage@,
            memory_usage: self.memory_usage@,
            total_memory: self.total_memory,
            disk_name: self.disk_name@,
            disk_size: self.disk_size,
            disk_usage: self.disk_usage,
            available_storage: self.available_storage,
        }
    }
}

impl MetricsView {
    /// The snapshot before the first tick: windows of `window_size` zeros,
    /// block 0, not syncing, no disk readings.
    pub open spec fn initial(window_size: nat, total_memory: u64) -> MetricsView {
        MetricsView {
            block_number: Ok(0),
            syncing: Ok(SyncState::NotSyncing),
            cpu_name: seq!['N', '/', 'A'],
            cpu_usage: Seq::new(window_size, |_i: int| 0u64),
            memory_usage: Seq::new(window_size, |_i: int| 0u64),
            total_memory,
            disk_name: seq!['N', '/', 'A'],
            disk_size: 0,
            disk_usage: 0,
            available_storage: 0,
        }
    }

    /// The snapshot after one tick that read `s`: the remote fields are
    /// overwritten, each window takes the new reading (zero when absent), and
    /// the disk fields take the new readings (zero when absent).
    pub open spec fn next(self, s: Sample) -> MetricsView {
        MetricsView {
            block_number: s.block_number,
            syncing: s.syncing,
            cpu_usage: pushed(self.cpu_usage, or_zero(s.cpu_usage)),
            memory_usage: pushed(self.memory_usage, or_zero(s.memory_usage)),
            disk_size: or_zero(s.disk_size),
            disk_usage: or_zero(s.disk_usage),
            available_storage: or_zero(s.available_storage),
            ..self
        }
    }

    /// The snapshot after one tick for each sample of `ss`, in order.
    pub open spec fn after(self, ss: Seq<Sample>) -> MetricsView
        decreases ss.len(),
    {
        if ss.len() == 0 {
            self
        } else {
            self.after(ss.drop_last()).next(ss.last())
        }
    }
}

impl Metrics {
    /// The snapshot published before the first tick.
    pub fn new(window_size: usize, total_memory: u64) -> (r: Metrics)
        ensures
            r@ == MetricsView::initial(window_size as nat, total_memory),
    {
        let cpu_name = String::from_str("N/A");
        let disk_name = String::from_str("N/A");
        proof {
            reveal_strlit("N/A");
            assert(cpu_name@ =~= seq!['N', '/', 'A']);
            assert(disk_name@ =~= seq!['N', '/', 'A']);
        }
        let cpu_usage = Window::new(window_size);
        let memory_usage = Window::new(window_size);
        Metrics {
            block_number: Ok(0),
            syncing: Ok(SyncState::NotSyncing),
            cpu_name,
            cpu_usage,
            memory_usage,
            total_memory,
            disk_name,
            disk_size: 0,
            disk_usage: 0,
            available_storage: 0,
        }
    }

    /// Records one tick's sample; absent readings are recorded as zero, never as
    /// a repetition of an earlier reading.
    pub fn record(&mut self, sample: Sample)
        ensures
            final(self)@ == old(self)@.next(sample),
    {
        self.cpu_usage.push(unwrap_or_zero(sample.cpu_usage));
        self.memory_usage.push(unwrap_or_zero(sample.memory_usage));
        self.disk_size = unwrap_or_zero(sample.disk_size);
        self.disk_usage = unwrap_or_zero(sample.disk_usage);
        self.available_storage = unwrap_or_zero(sample.available_storage);
        self.block_number = sample.block_number;
        self.syncing = sample.syncing;
    }
}

fn unwrap_or_zero(v: Option<u64>) -> (r: u64)
    ensures
        r == or_zero(v),
{
    match v {
        Some(x) => x,
        None => 0,
    }
}

/// Over any run of ticks each window holds what it would hold had the
/// recorded values (readings, or zero when absent) been pushed one by one.
pub proof fn lemma_windows_follow_readings(m: MetricsView, ss: Seq<Sample>)
    ensures
        m.after(ss).cpu_usage == pushed_all(m.cpu_usage, ss.map_values(|s: Sample| or_zero(s.cpu_usage))),
        m.after(ss).memory_usage == pushed_all(
            m.memory_usage,
            ss.map_values(|s: Sample| or_zero(s.memory_usage)),
        ),
    decreases ss.len(),
{
    if ss.len() > 0 {
        lemma_windows_follow_readings(m, ss.drop_last());
        assert(ss.map_values(|s: Sample| or_zero(s.cpu_usage)).drop_last() =~= ss.drop_last().map_values(
            |s: Sample| or_zero(s.cpu_usage),
        ));
        assert(ss.map_values(|s: Sample| or_zero(s.memory_usage)).drop_last()
            =~= ss.drop_last().map_values(|s: Sample| or_zero(s.memory_usage)));
    }
}

/// A failed remote query shows as an error in that tick's sync status and in
/// nothing else: the host metrics recorded on that tick are those that the same
/// readings give with any other remote result, and the next tick shows the
/// status it reads again, success included.
pub proof fn lemma_rpc_failure_isolated(
    m: MetricsView,
    failed: Sample,
    other: Sample,
    recovered: Sample,
)
    requires
        failed.syncing is Err,
        failed.same_host_readings(other),
    ensures
        m.next(failed).syncing == failed.syncing,
        m.next(failed).cpu_usage == m.next(other).cpu_usage,
        m.next(failed).memory_usage == m.next(other).memory_usage,
        m.next(failed).disk_size == m.next(other).disk_size,
        m.next(failed).disk_usage == m.next(other).disk_usage,
        m.next(failed).available_storage == m.next(other).available_storage,
        m.next(failed).next(recovered).syncing == recovered.syncing,
{
}

/// While the tracked process is absent each tick records zero CPU and memory
/// use rather than repeating the last reading: after `n` such ticks, `n` no more
/// than the windows hold, each window holds its newer old samples followed by
/// `n` zeros.
pub proof fn lemma_absent_process_records_zero(m: MetricsView, ss: Seq<Sample>)
    requires
        forall|j: int|
            0 <= j < ss.len() ==> (#[trigger] ss[j]).cpu_usage is None && ss[j].memory_usage is None,
        ss.len() <= m.cpu_usage.len(),
        ss.len() <= m.memory_usage.len(),
    ensures
        m.after(ss).cpu_usage == m.cpu_usage.subrange(ss.len() as int, m.cpu_usage.len() as int)
            + Seq::new(ss.len(), |_i: int| 0u64),
        m.after(ss).memory_usage == m.memory_usage.subrange(
            ss.len() as int,
            m.memory_usage.len() as int,
        ) + Seq::new(ss.len(), |_i: int| 0u64),
{
    let zeros = Seq::new(ss.len(), |_i: int| 0u64);
    lemma_windows_follow_readings(m, ss);
    assert(ss.map_values(|s: Sample| or_zero(s.cpu_usage)) =~= zeros);
    assert(ss.map_values(|s: Sample| or_zero(s.memory_usage)) =~= zeros);
    lemma_pushed_all_keeps_newest(m.cpu_usage, zeros);
    lemma_pushed_all_keeps_newest(m.memory_usage, zeros);
    assert((m.cpu_usage + zeros).subrange(ss.len() as int, (m.cpu_usage.len() + ss.len()) as int)
        =~= m.cpu_usage.subrange(ss.len() as int, m.cpu_usage.len() as int) + zeros);
    assert((m.memory_usage + zeros).subrange(ss.len() as int, (m.memory_usage.len() + ss.len()) as int)
        =~= m.memory_usage.subrange(ss.len() as int, m.memory_usage.len() as int) + zeros);
    if m.cpu_usage.len() == 0 {
        assert(m.after(ss).cpu_usage =~= m.cpu_usage.subrange(ss.len() as int, m.cpu_usage.len() as int) + zeros);
    }
    if m.memory_usage.len() == 0 {
        assert(m.after(ss).memory_usage =~= m.memory_usage.subrange(ss.len() as int, m.memory_usage.len() as int) + zeros);
    }
}

} // verus!
