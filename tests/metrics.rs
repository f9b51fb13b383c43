use node_radar::metrics::{Metrics, Sample, SyncState};

fn reading(cpu: Option<u64>, memory: Option<u64>, syncing: Result<SyncState, String>) -> Sample {
    Sample {
        block_number: Ok(12),
        syncing,
        cpu_usage: cpu,
        memory_usage: memory,
        disk_size: Some(1000),
        disk_usage: Some(250),
        available_storage: Some(600),
    }
}

#[test]
fn initial_snapshot_is_neutral() {
    let m = Metrics::new(100, 16_000);
    assert_eq!(m.block_number, Ok(0));
    assert_eq!(m.syncing, Ok(SyncState::NotSyncing));
    assert_eq!(m.cpu_name, "N/A");
    assert_eq!(m.disk_name, "N/A");
    assert_eq!(m.cpu_usage.values(), vec![0; 100]);
    assert_eq!(m.memory_usage.values(), vec![0; 100]);
    assert_eq!(m.total_memory, 16_000);
    assert_eq!((m.disk_size, m.disk_usage, m.available_storage), (0, 0, 0));
}

#[test]
fn record_pushes_readings_and_overwrites_scalars() {
    let mut m = Metrics::new(3, 16_000);
    m.record(reading(Some(4200), Some(900), Ok(SyncState::NotSyncing)));
    assert_eq!(m.cpu_usage.values(), vec![0, 0, 4200]);
    assert_eq!(m.memory_usage.values(), vec![0, 0, 900]);
    assert_eq!(m.block_number, Ok(12));
    assert_eq!((m.disk_size, m.disk_usage, m.available_storage), (1000, 250, 600));
}

#[test]
fn absent_readings_record_zero() {
    let mut m = Metrics::new(3, 16_000);
    m.record(Sample {
        block_number: Ok(1),
        syncing: Ok(SyncState::NotSyncing),
        cpu_usage: None,
        memory_usage: None,
        disk_size: None,
        disk_usage: None,
        available_storage: None,
    });
    assert_eq!(m.cpu_usage.values(), vec![0, 0, 0]);
    assert_eq!((m.disk_size, m.disk_usage, m.available_storage), (0, 0, 0));
}

#[test]
fn absent_process_gives_zeros_not_repeats() {
    let mut m = Metrics::new(6, 16_000);
    m.record(reading(Some(3000), Some(500), Ok(SyncState::NotSyncing)));
    m.record(reading(Some(3100), Some(510), Ok(SyncState::NotSyncing)));
    for _ in 0..4 {
        m.record(reading(None, None, Ok(SyncState::NotSyncing)));
    }
    assert_eq!(m.cpu_usage.values(), vec![3000, 3100, 0, 0, 0, 0]);
    assert_eq!(m.memory_usage.values(), vec![500, 510, 0, 0, 0, 0]);
    m.record(reading(Some(3200), Some(520), Ok(SyncState::NotSyncing)));
    assert_eq!(m.cpu_usage.values(), vec![3100, 0, 0, 0, 0, 3200]);
}

#[test]
fn rpc_failure_touches_only_sync_fields() {
    let mut failed = Metrics::new(4, 16_000);
    let mut fine = Metrics::new(4, 16_000);
    failed.record(reading(Some(2500), Some(800), Err("Error: connection refused".to_string())));
    fine.record(reading(Some(2500), Some(800), Ok(SyncState::NotSyncing)));
    assert_eq!(failed.syncing, Err("Error: connection refused".to_string()));
    assert_eq!(failed.cpu_usage.values(), fine.cpu_usage.values());
    assert_eq!(failed.memory_usage.values(), fine.memory_usage.values());
    assert_eq!(failed.disk_usage, fine.disk_usage);

    let status = SyncState::Syncing { starting_block: 1, current_block: 5, highest_block: 9 };
    failed.record(reading(Some(2600), Some(810), Ok(status)));
    assert_eq!(failed.syncing, Ok(status));
    assert_eq!(failed.cpu_usage.values(), vec![0, 0, 2500, 2600]);
}
