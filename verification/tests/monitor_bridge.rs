//! The change monitor's signaling rules and the state bridge.

use live_reload::bridge::{extract, inject};
use live_reload::loader::{Artifact, FileSystem, LoadedModule};
use live_reload::monitor::ChangeMonitor;
use live_reload::runtime::ModuleRuntime;
use live_reload::shared::AppState;

fn artifact(modified: u64) -> Artifact {
    Artifact {
        readable: true,
        has_timestamp: true,
        modified,
        copy_ok: true,
        loadable: true,
        has_create: true,
        has_destroy: true,
        create_ok: true,
    }
}

#[test]
fn poll_signals_only_strictly_newer() {
    let monitor = ChangeMonitor::new(100);
    assert!(monitor.poll(&FileSystem::new(artifact(99))).is_none());
    assert!(monitor.poll(&FileSystem::new(artifact(100))).is_none());
    let signal = monitor.poll(&FileSystem::new(artifact(101)));
    assert_eq!(signal.unwrap().modified, 101);
}

#[test]
fn poll_treats_unreadable_as_transient() {
    let monitor = ChangeMonitor::new(100);
    let mut newer = artifact(200);
    newer.readable = false;
    assert!(monitor.poll(&FileSystem::new(newer)).is_none());
    let mut no_stamp = artifact(200);
    no_stamp.has_timestamp = false;
    assert!(monitor.poll(&FileSystem::new(no_stamp)).is_none());
}

#[test]
fn poll_does_not_move_the_baseline() {
    let monitor = ChangeMonitor::new(100);
    let fs = FileSystem::new(artifact(101));
    assert!(monitor.poll(&fs).is_some());
    assert!(monitor.poll(&fs).is_some());
    assert_eq!(monitor.last_known_modified, 100);
}

#[test]
fn acknowledge_moves_the_baseline() {
    let mut monitor = ChangeMonitor::new(100);
    monitor.acknowledge(101);
    assert!(monitor.poll(&FileSystem::new(artifact(101))).is_none());
}

#[test]
fn bridge_extracts_and_injects_by_value() {
    let mut rt = ModuleRuntime::new();
    let image = rt.load_image();
    let instance = rt.create_instance(image, AppState { counter: 42 }, true).unwrap();
    let module = LoadedModule { image, instance, modified: 0 };
    let snapshot = extract(&rt, &module);
    assert_eq!(snapshot.counter, 42);
    let handed_over = inject(snapshot);
    assert_eq!(handed_over, snapshot);
}
