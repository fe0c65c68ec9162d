use hostctl::power::{schedule, PowerAction, DEFAULT_POWER_DELAY_SECS};
use hostctl::telemetry::{
    build_snapshot, parse_last_update, DiskSample, MemorySample, SnapshotSources, TempSample,
};
use hostctl::units::{bytes_to_mb, kib_to_mb, MegaBytes};

fn failed_sources() -> SnapshotSources {
    SnapshotSources {
        os_pretty_name: None,
        os_version: None,
        kernel_version: None,
        hostname: None,
        cpu_cores: None,
        load_avg_milli: None,
        memory: None,
        disks: None,
        temperatures: Vec::new(),
        boot_time_secs: None,
        update_log_output: None,
    }
}

fn as_f64(m: MegaBytes) -> f64 {
    m.whole as f64 + m.frac as f64 / 1048576.0
}

#[test]
fn mem_unit_conversion_kib_to_mb() {
    let m = kib_to_mb(2_097_152);
    assert_eq!(m, MegaBytes { whole: 2048, frac: 0 });
    assert_eq!(as_f64(m), 2048.0);
    assert_eq!(as_f64(kib_to_mb(1536)), 1.5);
    assert_eq!(as_f64(kib_to_mb(0)), 0.0);
}

#[test]
fn disk_unit_conversion_bytes_to_mb() {
    let m = bytes_to_mb(1_048_576);
    assert_eq!(m, MegaBytes { whole: 1, frac: 0 });
    assert_eq!(as_f64(m), 1.0);
    assert_eq!(as_f64(bytes_to_mb(524_288)), 0.5);
}

#[test]
fn snapshot_survives_total_source_failure() {
    let mut src = failed_sources();
    src.temperatures = vec![TempSample { label: "temp1".to_string(), reading_millic: None }];
    let snap = build_snapshot(src);
    assert_eq!(snap.hardware, "");
    assert_eq!(snap.system_name, "");
    assert!(snap.os_version.is_none());
    assert_eq!(snap.kernel_version, "");
    assert_eq!(snap.hostname, "");
    assert!(snap.last_update.is_none());
    assert_eq!(snap.cpu_cores, 0);
    assert_eq!(snap.load_avg_milli, 0);
    assert_eq!(as_f64(snap.mem_total), 0.0);
    assert_eq!(as_f64(snap.mem_used), 0.0);
    assert_eq!(as_f64(snap.swap_total), 0.0);
    assert_eq!(as_f64(snap.swap_used), 0.0);
    assert!(snap.disks.is_empty());
    assert!(snap.temperatures.is_empty());
    assert_eq!(snap.boot_time, "0s");
}

#[test]
fn snapshot_converts_memory_to_megabytes() {
    let mut src = failed_sources();
    src.memory = Some(MemorySample {
        total_kib: 2_097_152,
        free_kib: 1_048_576,
        swap_total_kib: 1024,
        swap_free_kib: 512,
    });
    let snap = build_snapshot(src);
    assert_eq!(as_f64(snap.mem_total), 2048.0);
    assert_eq!(as_f64(snap.mem_used), 1024.0);
    assert_eq!(as_f64(snap.swap_total), 1.0);
    assert_eq!(as_f64(snap.swap_used), 0.5);
}

#[test]
fn snapshot_used_memory_never_underflows() {
    let mut src = failed_sources();
    src.memory = Some(MemorySample {
        total_kib: 1024,
        free_kib: 2048,
        swap_total_kib: 0,
        swap_free_kib: 0,
    });
    let snap = build_snapshot(src);
    assert_eq!(as_f64(snap.mem_total), 1.0);
    assert_eq!(as_f64(snap.mem_used), 0.0);
}

#[test]
fn snapshot_converts_disks_to_megabytes() {
    let mut src = failed_sources();
    src.disks = Some(vec![
        DiskSample { mount: "/".to_string(), total_bytes: 1_048_576, available_bytes: 524_288 },
        DiskSample { mount: "/boot".to_string(), total_bytes: 0, available_bytes: 0 },
    ]);
    let snap = build_snapshot(src);
    assert_eq!(snap.disks.len(), 2);
    assert_eq!(snap.disks[0].mount, "/");
    assert_eq!(as_f64(snap.disks[0].total), 1.0);
    assert_eq!(as_f64(snap.disks[0].available), 0.5);
    assert_eq!(snap.disks[1].mount, "/boot");
    assert_eq!(as_f64(snap.disks[1].total), 0.0);
}

#[test]
fn snapshot_skips_unreadable_temperature_channels() {
    let mut src = failed_sources();
    src.temperatures = vec![
        TempSample { label: "cpu".to_string(), reading_millic: Some(45_000) },
        TempSample { label: "gpu".to_string(), reading_millic: None },
        TempSample { label: "nvme".to_string(), reading_millic: Some(50_500) },
    ];
    let snap = build_snapshot(src);
    assert_eq!(snap.temperatures.len(), 2);
    assert_eq!(snap.temperatures[0].label, "cpu");
    assert_eq!(snap.temperatures[0].millicelsius, 45_000);
    assert_eq!(snap.temperatures[0].millicelsius as f64 / 1000.0, 45.0);
    assert_eq!(snap.temperatures[1].label, "nvme");
    assert_eq!(snap.temperatures[1].millicelsius, 50_500);
}

#[test]
fn snapshot_keeps_identity_fields_verbatim() {
    let mut src = failed_sources();
    src.os_pretty_name = Some("Arch Linux".to_string());
    src.os_version = Some("rolling".to_string());
    src.kernel_version = Some("6.1.0".to_string());
    src.hostname = Some("box".to_string());
    src.cpu_cores = Some(8);
    src.load_avg_milli = Some(1250);
    let snap = build_snapshot(src);
    assert_eq!(snap.system_name, "Arch Linux");
    assert_eq!(snap.os_version.as_deref(), Some("rolling"));
    assert_eq!(snap.kernel_version, "6.1.0");
    assert_eq!(snap.hostname, "box");
    assert_eq!(snap.cpu_cores, 8);
    assert_eq!(snap.load_avg_milli, 1250);
    assert_eq!(snap.load_avg_milli as f64 / 1000.0, 1.25);
}

#[test]
fn snapshot_renders_boot_time_with_humantime() {
    let mut src = failed_sources();
    src.boot_time_secs = Some(3661);
    let snap = build_snapshot(src);
    assert_eq!(snap.boot_time, "1h 1m 1s");
}

#[test]
fn last_update_extracts_bracketed_timestamp() {
    let out = b"[2024-01-01T00:00:00+0000] [PACMAN] Running 'pacman -Syu'\n".to_vec();
    assert_eq!(
        parse_last_update(Some(out)),
        Some("2024-01-01T00:00:00+0000".to_string())
    );
}

#[test]
fn last_update_degrades_to_none() {
    assert_eq!(parse_last_update(None), None);
    assert_eq!(parse_last_update(Some(Vec::new())), None);
    assert_eq!(parse_last_update(Some(vec![0xff, 0xfe])), None);
    assert_eq!(parse_last_update(Some(b"x rest".to_vec())), None);
}

#[test]
fn schedule_reboot_acknowledges_immediately() {
    let r = schedule(PowerAction::Reboot, DEFAULT_POWER_DELAY_SECS);
    assert_eq!(r.acknowledgement, "Requesting to reboot.");
    assert_eq!(r.program, "reboot");
    assert_eq!(r.delay_secs, 3);
}

#[test]
fn schedule_poweroff_acknowledges_immediately() {
    let r = schedule(PowerAction::Poweroff, 10);
    assert_eq!(r.acknowledgement, "Requesting to poweroff.");
    assert_eq!(r.program, "poweroff");
    assert_eq!(r.delay_secs, 10);
}
