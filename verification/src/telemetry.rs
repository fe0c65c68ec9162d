//! The telemetry aggregator.
//!
//! A snapshot is assembled from independent host-state sources, each of
//! which may have failed. Failure is contained per source: a missing
//! source degrades its own fields to documented defaults — zero, empty,
//! or absent — and never denies the rest of the snapshot. A temperature
//! channel that failed to read is skipped outright, not reported as
//! zero, so no fabricated reading is presented as real data.
//!
//! The service front reads the sources (procfs, sysfs, the update log)
//! and hands their raw values in; everything from there on is verified.

use vstd::prelude::*;
use vstd::string::StrSliceExecFns;
use vstd::string::StringExecFns;
use vstd::utf8::{decode_utf8, valid_utf8};
use crate::trusted::{format_duration_secs, human_duration_of, string_from_utf8};
use crate::units::{bytes_to_mb, kib_to_mb, spec_bytes_to_mb, spec_kib_to_mb, MegaBytes};

verus! {

/// Memory counters as the source reports them, in kibibytes.
#[derive(Clone, Copy, PartialEq, Eq, Structural, Debug)]
pub struct MemorySample {
    pub total_kib: u64,
    pub free_kib: u64,
    pub swap_total_kib: u64,
    pub swap_free_kib: u64,
}

/// One mounted filesystem as the source reports it, in bytes.
pub struct DiskSample {
    pub mount: String,
    pub total_bytes: u64,
    pub available_bytes: u64,
}

/// One temperature channel as enumerated: its label, and its reading in
/// millidegrees Celsius when the channel could be read at all.
pub struct TempSample {
    pub label: String,
    pub reading_millic: Option<i64>,
}

/// One mounted filesystem of the snapshot, in megabytes.
pub struct DiskInfo {
    pub mount: String,
    pub total: MegaBytes,
    pub available: MegaBytes,
}

/// One reported sensor reading, in millidegrees Celsius.
pub struct TemperatureReading {
    pub label: String,
    pub millicelsius: i64,
}

/// Everything the independent sources delivered, each already reduced
/// to plain values; `None` and a `None` reading mean that source or
/// channel failed.
pub struct SnapshotSources {
    pub os_pretty_name: Option<String>,
    pub os_version: Option<String>,
    pub kernel_version: Option<String>,
    pub hostname: Option<String>,
    pub cpu_cores: Option<u32>,
    pub load_avg_milli: Option<u64>,
    pub memory: Option<MemorySample>,
    pub disks: Option<Vec<DiskSample>>,
    pub temperatures: Vec<TempSample>,
    pub boot_time_secs: Option<u64>,
    pub update_log_output: Option<Vec<u8>>,
}

/// One complete point-in-time record of host state. Memory and disk
/// sizes are in megabytes, the load average in thousandths, and the
/// boot time is already rendered as a human-readable duration.
pub struct SystemSnapshot {
    pub hardware: String,
    pub system_name: String,
    pub os_version: Option<String>,
    pub kernel_version: String,
    pub last_update: Option<String>,
    pub hostname: String,
    pub boot_time: String,
    pub cpu_cores: u32,
    pub load_avg_milli: u64,
    pub mem_total: MegaBytes,
    pub mem_used: MegaBytes,
    pub swap_total: MegaBytes,
    pub swap_used: MegaBytes,
    pub disks: Vec<DiskInfo>,
    pub temperatures: Vec<TemperatureReading>,
}

/// The used part of a counter: `total - free`, and zero when the
/// source reports more free than total.
pub open spec fn spec_used_kib(total: u64, free: u64) -> u64 {
    if free <= total {
        (total - free) as u64
    } else {
        0
    }
}

/// A disk sample converted to megabytes, label kept verbatim.
pub open spec fn disk_converted(d: DiskSample, r: DiskInfo) -> bool {
    &&& r.mount@ == d.mount@
    &&& r.total == spec_bytes_to_mb(d.total_bytes)
    &&& r.available == spec_bytes_to_mb(d.available_bytes)
}

/// The readings of the channels that could be read, in order, each as
/// its label and millidegree value.
pub open spec fn temps_of(samples: Seq<TempSample>) -> Seq<(Seq<char>, i64)>
    decreases samples.len(),
{
    if samples.len() == 0 {
        Seq::empty()
    } else {
        let rest = temps_of(samples.drop_first());
        match samples[0].reading_millic {
            Some(v) => seq![(samples[0].label@, v)] + rest,
            None => rest,
        }
    }
}

/// The reported readings as label/value pairs.
pub open spec fn readings_view(rs: Seq<TemperatureReading>) -> Seq<(Seq<char>, i64)> {
    rs.map_values(|r: TemperatureReading| (r.label@, r.millicelsius))
}

/// The position just before the first space of `s` at or after `i`.
pub open spec fn space_tok_end(s: Seq<char>, i: int) -> int
    decreases s.len() - i,
{
    if i < 0 || i >= s.len() || s[i] == ' ' {
        i
    } else {
        space_tok_end(s, i + 1)
    }
}

/// The update timestamp hidden in the captured log output: the first
/// space-delimited field with its surrounding brackets stripped, absent
/// whenever the output is not UTF-8 or the field is too short to carry
/// brackets.
pub open spec fn spec_last_update(bytes: Seq<u8>) -> Option<Seq<char>> {
    if !valid_utf8(bytes) {
        None
    } else {
        let text = decode_utf8(bytes);
        let end = space_tok_end(text, 0);
        if end < 2 {
            None
        } else {
            Some(text.subrange(1, end - 1))
        }
    }
}

/// Extract the update timestamp from the captured output of the log
/// scrape, when there was output and it parses.
pub fn parse_last_update(output: Option<Vec<u8>>) -> (r: Option<String>)
    ensures
        match output {
            None => r is None,
            Some(bytes) => r.deep_view() == spec_last_update(bytes@),
        },
{
    let bytes = match output {
        Some(b) => b,
        None => {
            return None;
        },
    };
    let text = match string_from_utf8(bytes) {
        Some(t) => t,
        None => {
            return None;
        },
    };
    let s = text.as_str();
    let n: usize = s.unicode_len();
    let mut i: usize = 0;
    while i < n && s.get_char(i) != ' '
        invariant
            n == s@.len(),
            0 <= i <= n,
            space_tok_end(s@, 0) == space_tok_end(s@, i as int),
        decreases n - i,
    {
        i = i + 1;
    }
    proof {
        assert(space_tok_end(s@, i as int) == i);
    }
    if i < 2 {
        None
    } else {
        let stripped = s.substring_char(1, i - 1);
        Some(String::from_str(stripped))
    }
}

/// The snapshot `snap` is exactly what the aggregator owes for the
/// source values `src`: every present source is taken over verbatim
/// (converted to megabytes where units demand it) and every absent
/// source is degraded to its documented default.
pub open spec fn snapshot_matches(src: SnapshotSources, snap: SystemSnapshot) -> bool {
    &&& snap.hardware@ == Seq::<char>::empty()
    &&& snap.system_name@ == (match src.os_pretty_name {
        Some(s) => s@,
        None => Seq::<char>::empty(),
    })
    &&& snap.os_version.deep_view() == src.os_version.deep_view()
    &&& snap.kernel_version@ == (match src.kernel_version {
        Some(s) => s@,
        None => Seq::<char>::empty(),
    })
    &&& snap.hostname@ == (match src.hostname {
        Some(s) => s@,
        None => Seq::<char>::empty(),
    })
    &&& snap.cpu_cores == (match src.cpu_cores {
        Some(n) => n,
        None => 0u32,
    })
    &&& snap.load_avg_milli == (match src.load_avg_milli {
        Some(l) => l,
        None => 0u64,
    })
    &&& (match src.memory {
        Some(m) => {
            &&& snap.mem_total == spec_kib_to_mb(m.total_kib)
            &&& snap.mem_used == spec_kib_to_mb(spec_used_kib(m.total_kib, m.free_kib))
            &&& snap.swap_total == spec_kib_to_mb(m.swap_total_kib)
            &&& snap.swap_used == spec_kib_to_mb(
                spec_used_kib(m.swap_total_kib, m.swap_free_kib),
            )
        },
        None => {
            &&& snap.mem_total == MegaBytes::spec_zero()
            &&& snap.mem_used == MegaBytes::spec_zero()
            &&& snap.swap_total == MegaBytes::spec_zero()
            &&& snap.swap_used == MegaBytes::spec_zero()
        },
    })
    &&& (match src.disks {
        Some(ds) => snap.disks@.len() == ds@.len() && (forall|i: int|
            0 <= i < ds@.len() ==> disk_converted(ds@[i], #[trigger] snap.disks@[i])),
        None => snap.disks@.len() == 0,
    })
    &&& readings_view(snap.temperatures@) == temps_of(src.temperatures@)
    &&& snap.boot_time@ == human_duration_of(
        match src.boot_time_secs {
            Some(s) => s,
            None => 0u64,
        },
    )
    &&& (match src.update_log_output {
        None => snap.last_update is None,
        Some(bytes) => snap.last_update.deep_view() == spec_last_update(bytes@),
    })
}

/// Every source failed: nothing was delivered, and no channel read.
pub open spec fn all_sources_failed(src: SnapshotSources) -> bool {
    &&& src.os_pretty_name is None
    &&& src.os_version is None
    &&& src.kernel_version is None
    &&& src.hostname is None
    &&& src.cpu_cores is None
    &&& src.load_avg_milli is None
    &&& src.memory is None
    &&& src.disks is None
    &&& forall|i: int|
        0 <= i < src.temperatures@.len() ==> (#[trigger] src.temperatures@[i]).reading_millic
            is None
    &&& src.boot_time_secs is None
    &&& src.update_log_output is None
}

/// No channel read, no reading reported.
pub proof fn lemma_temps_all_failed(samples: Seq<TempSample>)
    requires
        forall|i: int|
            0 <= i < samples.len() ==> (#[trigger] samples[i]).reading_millic is None,
    ensures
        temps_of(samples) == Seq::<(Seq<char>, i64)>::empty(),
    decreases samples.len(),
{
    if samples.len() > 0 {
        assert(samples[0].reading_millic is None);
        assert forall|i: int| 0 <= i < samples.drop_first().len() implies (
        #[trigger] samples.drop_first()[i]).reading_millic is None by {
            assert(samples.drop_first()[i] == samples[i + 1]);
        }
        lemma_temps_all_failed(samples.drop_first());
    }
}

/// Law: the aggregator never fails outright. A snapshot is owed for
/// every combination of source outcomes, and when every source failed
/// it still exists, with each field at its documented default: empty
/// strings, absent options, zero counters and sizes, no disks, no
/// readings, and a boot time rendered for a zero duration.
pub proof fn lemma_snapshot_degrades_to_defaults(src: SnapshotSources, snap: SystemSnapshot)
    requires
        all_sources_failed(src),
        snapshot_matches(src, snap),
    ensures
        snap.hardware@ == Seq::<char>::empty(),
        snap.system_name@ == Seq::<char>::empty(),
        snap.os_version is None,
        snap.kernel_version@ == Seq::<char>::empty(),
        snap.hostname@ == Seq::<char>::empty(),
        snap.cpu_cores == 0,
        snap.load_avg_milli == 0,
        snap.mem_total == MegaBytes::spec_zero(),
        snap.mem_used == MegaBytes::spec_zero(),
        snap.swap_total == MegaBytes::spec_zero(),
        snap.swap_used == MegaBytes::spec_zero(),
        snap.disks@.len() == 0,
        snap.temperatures@.len() == 0,
        snap.last_update is None,
        snap.boot_time@ == human_duration_of(0),
{
    lemma_temps_all_failed(src.temperatures@);
    assert(readings_view(snap.temperatures@).len() == snap.temperatures@.len());
}

/// Keep exactly the channels that delivered a reading, in order.
fn collect_temperatures(samples: Vec<TempSample>) -> (r: Vec<TemperatureReading>)
    ensures
        readings_view(r@) == temps_of(samples@),
{
    let n: usize = samples.len();
    let mut out: Vec<TemperatureReading> = Vec::new();
    let mut i: usize = 0;
    proof {
        assert(readings_view(out@) =~= Seq::<(Seq<char>, i64)>::empty());
        assert(samples@.skip(0) =~= samples@);
    }
    while i < n
        invariant
            n == samples@.len(),
            0 <= i <= n,
            readings_view(out@) + temps_of(samples@.skip(i as int)) == temps_of(samples@),
        decreases n - i,
    {
        let ghost pre = readings_view(out@);
        let ghost suffix = samples@.skip(i as int);
        proof {
            assert(suffix[0] == samples@[i as int]);
            assert(suffix.drop_first() =~= samples@.skip(i + 1));
        }
        match &samples[i].reading_millic {
            Some(v) => {
                out.push(
                    TemperatureReading { label: samples[i].label.clone(), millicelsius: *v },
                );
                proof {
                    assert(readings_view(out@) =~= pre.push(
                        (samples@[i as int].label@, samples@[i as int].reading_millic->0),
                    ));
                    assert(pre + temps_of(suffix) == pre + (seq![
                        (samples@[i as int].label@, samples@[i as int].reading_millic->0),
                    ] + temps_of(samples@.skip(i + 1))));
                    assert(readings_view(out@) + temps_of(samples@.skip(i + 1)) =~= pre + (seq![
                        (samples@[i as int].label@, samples@[i as int].reading_millic->0),
                    ] + temps_of(samples@.skip(i + 1))));
                }
            },
            None => {},
        }
        i = i + 1;
    }
    proof {
        assert(samples@.skip(n as int).len() == 0);
        assert(readings_view(out@) + temps_of(samples@.skip(n as int)) =~= readings_view(out@));
    }
    out
}

/// Convert the enumerated disks to megabytes; a source that could not
/// enumerate at all yields the empty sequence.
fn convert_disks(disks: Option<Vec<DiskSample>>) -> (r: Vec<DiskInfo>)
    ensures
        match disks {
            Some(ds) => r@.len() == ds@.len() && (forall|i: int|
                0 <= i < ds@.len() ==> disk_converted(ds@[i], #[trigger] r@[i])),
            None => r@.len() == 0,
        },
{
    let ds = match disks {
        Some(ds) => ds,
        None => {
            return Vec::new();
        },
    };
    let n: usize = ds.len();
    let mut out: Vec<DiskInfo> = Vec::new();
    let mut i: usize = 0;
    while i < n
        invariant
            n == ds@.len(),
            0 <= i <= n,
            out@.len() == i,
            forall|k: int| 0 <= k < i ==> disk_converted(ds@[k], #[trigger] out@[k]),
        decreases n - i,
    {
        out.push(
            DiskInfo {
                mount: ds[i].mount.clone(),
                total: bytes_to_mb(ds[i].total_bytes),
                available: bytes_to_mb(ds[i].available_bytes),
            },
        );
        i = i + 1;
    }
    out
}

/// Assemble one snapshot from whatever the sources delivered. This
/// never fails: every absent source only degrades its own fields, per
/// `snapshot_matches`.
pub fn build_snapshot(src: SnapshotSources) -> (snap: SystemSnapshot)
    ensures
        snapshot_matches(src, snap),
{
    let SnapshotSources {
        os_pretty_name,
        os_version,
        kernel_version,
        hostname,
        cpu_cores,
        load_avg_milli,
        memory,
        disks,
        temperatures,
        boot_time_secs,
        update_log_output,
    } = src;
    let (mem_total, mem_used, swap_total, swap_used) = match memory {
        Some(m) => {
            let used_kib: u64 = if m.free_kib <= m.total_kib {
                m.total_kib - m.free_kib
            } else {
                0
            };
            let swap_used_kib: u64 = if m.swap_free_kib <= m.swap_total_kib {
                m.swap_total_kib - m.swap_free_kib
            } else {
                0
            };
            (
                kib_to_mb(m.total_kib),
                kib_to_mb(used_kib),
                kib_to_mb(m.swap_total_kib),
                kib_to_mb(swap_used_kib),
            )
        },
        None => (MegaBytes::zero(), MegaBytes::zero(), MegaBytes::zero(), MegaBytes::zero()),
    };
    let boot_secs: u64 = match boot_time_secs {
        Some(s) => s,
        None => 0,
    };
    SystemSnapshot {
        hardware: String::new(),
        system_name: match os_pretty_name {
            Some(s) => s,
            None => String::new(),
        },
        os_version,
        kernel_version: match kernel_version {
            Some(s) => s,
            None => String::new(),
        },
        last_update: parse_last_update(update_log_output),
        hostname: match hostname {
            Some(s) => s,
            None => String::new(),
        },
        boot_time: format_duration_secs(boot_secs),
        cpu_cores: match cpu_cores {
            Some(n) => n,
            None => 0,
        },
        load_avg_milli: match load_avg_milli {
            Some(l) => l,
            None => 0,
        },
        mem_total,
        mem_used,
        swap_total,
        swap_used,
        disks: convert_disks(disks),
        temperatures: collect_temperatures(temperatures),
    }
}

} // verus!
