use node_radar::dashboard::{update, App, Input, Radar};
use node_radar::metrics::{Sample, SyncState};

fn unreachable_node_sample(cpu: u64) -> Sample {
    Sample {
        block_number: Err("Error: node unreachable".to_string()),
        syncing: Err("Error: node unreachable".to_string()),
        cpu_usage: Some(cpu),
        memory_usage: Some(1 << 20),
        disk_size: Some(1 << 30),
        disk_usage: Some(1 << 25),
        available_storage: Some(1 << 29),
    }
}

#[test]
fn app_starts_running_with_zero_windows() {
    let app = App::new("usecpu", "http://localhost:9545", "/var/node", 100, 8_000).unwrap();
    assert!(!app.should_quit);
    assert_eq!(app.data.cpu_usage.values(), vec![0; 100]);
    assert_eq!(app.data.total_memory, 8_000);
    assert_eq!(app.radar.process_name, "usecpu");
    assert_eq!(app.radar.storage_directory, "/var/node");
    assert_eq!(app.radar.endpoint.as_str(), "http://localhost:9545/");
}

#[test]
fn malformed_endpoint_is_refused() {
    let err = App::new("usecpu", "not a url", "/var/node", 100, 8_000).err().unwrap();
    assert_eq!(err, "Error: Not a Valid URL for RPC endpoint");
    assert!(Radar::new("", "usecpu", "/tmp").is_err());
}

#[test]
fn radar_from_missing_endpoint_fails() {
    let err = Radar::from_endpoint(None, "usecpu", "/tmp").err().unwrap();
    assert_eq!(err, "Error: Not a Valid URL for RPC endpoint");
    let url = starknet::providers::Url::parse("http://node:9545").unwrap();
    let radar = Radar::from_endpoint(Some(url.clone()), "usecpu", "/tmp").unwrap();
    assert_eq!(radar.endpoint, url);
}

#[test]
fn quit_key_stops_the_dashboard() {
    let mut app = App::new("usecpu", "http://localhost:9545", "/tmp", 10, 8_000).unwrap();
    app.handle_input(Input::Idle);
    assert!(!app.should_quit);
    app.handle_input(Input::Press('x'));
    assert!(!app.should_quit);
    app.handle_input(Input::Other);
    assert!(!app.should_quit);
    app.handle_input(Input::Press('q'));
    assert!(app.should_quit);
    app.handle_input(Input::Idle);
    assert!(app.should_quit);
}

#[test]
fn unreachable_node_keeps_dashboard_running() {
    let mut app = App::new("usecpu", "http://localhost:9545", "/tmp", 5, 8_000).unwrap();
    for tick in 1..=3u64 {
        update(&mut app, unreachable_node_sample(1000 * tick), Input::Idle);
        assert!(matches!(app.data.syncing, Err(ref e) if e == "Error: node unreachable"));
        assert!(!app.should_quit);
    }
    assert_eq!(app.data.cpu_usage.values(), vec![0, 0, 1000, 2000, 3000]);
    assert!(app.data.cpu_usage.last().unwrap() > 0);
    assert_eq!(app.data.disk_usage, 1 << 25);
}

#[test]
fn tick_then_quit_publishes_last_frame() {
    let mut app = App::new("usecpu", "http://localhost:9545", "/tmp", 3, 8_000).unwrap();
    let sample = Sample {
        block_number: Ok(77),
        syncing: Ok(SyncState::NotSyncing),
        cpu_usage: Some(1234),
        memory_usage: None,
        disk_size: None,
        disk_usage: Some(5),
        available_storage: None,
    };
    update(&mut app, sample, Input::Press('q'));
    assert!(app.should_quit);
    assert_eq!(app.data.block_number, Ok(77));
    assert_eq!(app.data.cpu_usage.values(), vec![0, 0, 1234]);
    assert_eq!(app.data.memory_usage.values(), vec![0, 0, 0]);
}
