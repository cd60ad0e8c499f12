//! The snapshot data model: one complete, immutable capture of the tracked
//! hardware facts, assembled from per-category results so that one failing
//! category never spoils the rest, plus the numeric extractions that feed
//! the time-series store.

use vstd::prelude::*;
use vstd::arithmetic::div_mod::{lemma_multiply_divide_le, lemma_multiply_divide_lt};

verus! {

/// One per-core CPU reading. Usage is in hundredths of a percent.
pub struct CpuEntry {
    pub brand: String,
    pub name: String,
    pub usage_centi: u64,
}

/// One GPU, by brand and marketed name.
pub struct GpuEntry {
    pub brand: String,
    pub name: String,
}

/// Memory counters, all in bytes.
#[derive(Clone, Copy, Debug, PartialEq, Eq, Structural)]
pub struct MemCounters {
    pub total_memory: u64,
    pub used_memory: u64,
    pub total_swap: u64,
    pub used_swap: u64,
}

/// One disk, already described as a display line.
pub struct DiskEntry {
    pub descriptor: String,
}

/// One network interface's cumulative traffic counters, in bytes.
pub struct NetEntry {
    pub name: String,
    pub received: u64,
    pub transmitted: u64,
}

/// The machine's identity; any field may read "unknown".
pub struct SystemIdentity {
    pub host_name: String,
    pub os_name: String,
    pub os_version: String,
    pub kernel_version: String,
}

/// One sensor or component reading, already described as a display line.
pub struct SensorEntry {
    pub descriptor: String,
}

/// One process with its disk I/O counters, in bytes.
pub struct ProcessEntry {
    pub pid: u64,
    pub name: String,
    pub read_bytes: u64,
    pub written_bytes: u64,
}

/// Which categories the adapter populated on this sample.
#[derive(Clone, Copy, Debug, PartialEq, Eq, Structural)]
pub struct Availability {
    pub cpu: bool,
    pub gpu: bool,
    pub memory: bool,
    pub disk: bool,
    pub network: bool,
    pub system: bool,
    pub sensors: bool,
    pub processes: bool,
}

/// One complete capture of the tracked hardware facts at an instant.
/// Replaced as a whole on each refresh; never partially visible.
pub struct Snapshot {
    pub cpus: Vec<CpuEntry>,
    pub gpus: Vec<GpuEntry>,
    pub memory: MemCounters,
    pub disks: Vec<DiskEntry>,
    pub networks: Vec<NetEntry>,
    pub system: SystemIdentity,
    pub sensors: Vec<SensorEntry>,
    pub processes: Vec<ProcessEntry>,
}

/// What the adapter handed back for each category: `None` marks a category
/// it could not populate this time.
pub struct SampleParts {
    pub cpus: Option<Vec<CpuEntry>>,
    pub gpus: Option<Vec<GpuEntry>>,
    pub memory: Option<MemCounters>,
    pub disks: Option<Vec<DiskEntry>>,
    pub networks: Option<Vec<NetEntry>>,
    pub system: Option<SystemIdentity>,
    pub sensors: Option<Vec<SensorEntry>>,
    pub processes: Option<Vec<ProcessEntry>>,
}

impl Snapshot {
    /// A snapshot with every category empty, the state before the first
    /// successful refresh.
    pub fn empty() -> (r: Snapshot)
        ensures
            r.cpus@.len() == 0,
            r.gpus@.len() == 0,
            r.memory == (MemCounters { total_memory: 0u64, used_memory: 0u64, total_swap: 0u64, used_swap: 0u64 }),
            r.disks@.len() == 0,
            r.networks@.len() == 0,
            r.system.host_name@ == "unknown"@,
            r.system.os_name@ == "unknown"@,
            r.system.os_version@ == "unknown"@,
            r.system.kernel_version@ == "unknown"@,
            r.sensors@.len() == 0,
            r.processes@.len() == 0,
    {
        Snapshot {
            cpus: Vec::new(),
            gpus: Vec::new(),
            memory: MemCounters { total_memory: 0, used_memory: 0, total_swap: 0, used_swap: 0 },
            disks: Vec::new(),
            networks: Vec::new(),
            system: SystemIdentity {
                host_name: "unknown".to_owned(),
                os_name: "unknown".to_owned(),
                os_version: "unknown".to_owned(),
                kernel_version: "unknown".to_owned(),
            },
            sensors: Vec::new(),
            processes: Vec::new(),
        }
    }

    /// Assemble one snapshot out of per-category results. A populated
    /// category is taken as it came; a failed one is substituted by an
    /// empty or default value and marked unavailable — it never aborts
    /// the refresh or touches the other categories.
    pub fn assemble(parts: SampleParts) -> (r: (Snapshot, Availability))
        ensures
            (match parts.cpus {
                Some(v) => r.0.cpus == v && r.1.cpu,
                None => r.0.cpus@.len() == 0 && !r.1.cpu,
            }),
            (match parts.gpus {
                Some(v) => r.0.gpus == v && r.1.gpu,
                None => r.0.gpus@.len() == 0 && !r.1.gpu,
            }),
            (match parts.memory {
                Some(m) => r.0.memory == m && r.1.memory,
                None => r.0.memory == (MemCounters { total_memory: 0u64, used_memory: 0u64, total_swap: 0u64, used_swap: 0u64 }) && !r.1.memory,
            }),
            (match parts.disks {
                Some(v) => r.0.disks == v && r.1.disk,
                None => r.0.disks@.len() == 0 && !r.1.disk,
            }),
            (match parts.networks {
                Some(v) => r.0.networks == v && r.1.network,
                None => r.0.networks@.len() == 0 && !r.1.network,
            }),
            (match parts.system {
                Some(s) => r.0.system == s && r.1.system,
                None => r.0.system.host_name@ == "unknown"@ && r.0.system.os_name@ == "unknown"@
                    && r.0.system.os_version@ == "unknown"@
                    && r.0.system.kernel_version@ == "unknown"@ && !r.1.system,
            }),
            (match parts.sensors {
                Some(v) => r.0.sensors == v && r.1.sensors,
                None => r.0.sensors@.len() == 0 && !r.1.sensors,
            }),
            (match parts.processes {
                Some(v) => r.0.processes == v && r.1.processes,
                None => r.0.processes@.len() == 0 && !r.1.processes,
            }),
    {
        let base = Snapshot::empty();
        let mut avail = Availability {
            cpu: false,
            gpu: false,
            memory: false,
            disk: false,
            network: false,
            system: false,
            sensors: false,
            processes: false,
        };
        let mut snap = base;
        match parts.cpus {
            Some(v) => {
                snap.cpus = v;
                avail.cpu = true;
            },
            None => {},
        }
        match parts.gpus {
            Some(v) => {
                snap.gpus = v;
                avail.gpu = true;
            },
            None => {},
        }
        match parts.memory {
            Some(m) => {
                snap.memory = m;
                avail.memory = true;
            },
            None => {},
        }
        match parts.disks {
            Some(v) => {
                snap.disks = v;
                avail.disk = true;
            },
            None => {},
        }
        match parts.networks {
            Some(v) => {
                snap.networks = v;
                avail.network = true;
            },
            None => {},
        }
        match parts.system {
            Some(s) => {
                snap.system = s;
                avail.system = true;
            },
            None => {},
        }
        match parts.sensors {
            Some(v) => {
                snap.sensors = v;
                avail.sensors = true;
            },
            None => {},
        }
        match parts.processes {
            Some(v) => {
                snap.processes = v;
                avail.processes = true;
            },
            None => {},
        }
        (snap, avail)
    }
}

/// The sum of the per-core usage readings.
pub open spec fn sum_usage(cpus: Seq<CpuEntry>) -> int
    decreases cpus.len(),
{
    if cpus.len() == 0 {
        0
    } else {
        sum_usage(cpus.drop_last()) + cpus.last().usage_centi
    }
}

/// The aggregate CPU usage of a snapshot: the mean of the per-core
/// readings, in hundredths of a percent; zero when no core was reported.
pub open spec fn mean_usage(cpus: Seq<CpuEntry>) -> int {
    if cpus.len() == 0 {
        0
    } else {
        sum_usage(cpus) / cpus.len() as int
    }
}

/// The sum of the usage readings is bounded by count times the largest
/// representable reading.
proof fn lemma_sum_usage_bound(cpus: Seq<CpuEntry>)
    ensures
        0 <= sum_usage(cpus) <= cpus.len() * (u64::MAX as int),
    decreases cpus.len(),
{
    if cpus.len() > 0 {
        lemma_sum_usage_bound(cpus.drop_last());
    }
}

/// The mean per-core usage, in hundredths of a percent.
pub fn aggregate_cpu_usage(cpus: &Vec<CpuEntry>) -> (r: u64)
    ensures
        r == mean_usage(cpus@),
{
    let n = cpus.len();
    if n == 0 {
        return 0;
    }
    let mut sum: u128 = 0;
    let mut i: usize = 0;
    while i < n
        invariant
            n == cpus@.len(),
            i <= n,
            sum == sum_usage(cpus@.subrange(0, i as int)),
            sum <= (i as int) * (u64::MAX as int),
        decreases n - i,
    {
        proof {
            assert(cpus@.subrange(0, i + 1).drop_last() =~= cpus@.subrange(0, i as int));
            assert(cpus@.subrange(0, i + 1).last() == cpus@[i as int]);
        }
        sum = sum + cpus[i].usage_centi as u128;
        i = i + 1;
    }
    proof {
        assert(cpus@.subrange(0, n as int) =~= cpus@);
        lemma_multiply_divide_le(sum as int, n as int, u64::MAX as int);
    }
    let mean: u128 = sum / (n as u128);
    mean as u64
}

/// The used share of main memory, in hundredths of a percent, clamped to
/// the full scale: zero when no memory was reported, full when the used
/// counter reaches or exceeds the total.
pub open spec fn mem_used_fraction(m: MemCounters) -> int {
    if m.total_memory == 0 {
        0
    } else if m.used_memory >= m.total_memory {
        10000
    } else {
        (m.used_memory * 10000) / m.total_memory as int
    }
}

/// The used-memory fraction of a snapshot, in hundredths of a percent.
pub fn mem_used_centi(m: &MemCounters) -> (r: u64)
    ensures
        r == mem_used_fraction(*m),
{
    if m.total_memory == 0 {
        0
    } else if m.used_memory >= m.total_memory {
        10000
    } else {
        let num: u128 = m.used_memory as u128 * 10000;
        let q: u128 = num / (m.total_memory as u128);
        proof {
            lemma_multiply_divide_lt(num as int, m.total_memory as int, 10000);
        }
        q as u64
    }
}

/// The total traffic a snapshot reports over all interfaces: received plus
/// transmitted bytes, saturating at the largest representable count.
pub open spec fn net_total(nets: Seq<NetEntry>) -> u64
    decreases nets.len(),
{
    if nets.len() == 0 {
        0u64
    } else {
        net_total(nets.drop_last()).saturating_add(
            nets.last().received.saturating_add(nets.last().transmitted),
        )
    }
}

/// The total traffic over all interfaces, in bytes, saturating.
pub fn total_network_bytes(nets: &Vec<NetEntry>) -> (r: u64)
    ensures
        r == net_total(nets@),
{
    let n = nets.len();
    let mut acc: u64 = 0;
    let mut i: usize = 0;
    while i < n
        invariant
            n == nets@.len(),
            i <= n,
            acc == net_total(nets@.subrange(0, i as int)),
        decreases n - i,
    {
        proof {
            assert(nets@.subrange(0, i + 1).drop_last() =~= nets@.subrange(0, i as int));
            assert(nets@.subrange(0, i + 1).last() == nets@[i as int]);
        }
        acc = acc.saturating_add(nets[i].received.saturating_add(nets[i].transmitted));
        i = i + 1;
    }
    proof {
        assert(nets@.subrange(0, n as int) =~= nets@);
    }
    acc
}

} // verus!
