//! End-to-end scenarios for the lifecycle engine: reloads that preserve
//! state, failed reloads that leave the previous module untouched, and
//! the change monitor's at-most-one-signal behavior.

use live_reload::core_app::ViewDescription;
use live_reload::lifecycle::LifecycleManager;
use live_reload::loader::{Artifact, FileSystem, LoadError, ModuleDescriptor};
use live_reload::naming::{BuildProfile, Platform};
use live_reload::runtime::ModuleRuntime;
use live_reload::shared::{AppState, Message};

fn healthy_artifact(modified: u64) -> Artifact {
    Artifact {
        readable: true,
        has_timestamp: true,
        modified,
        copy_ok: true,
        loadable: true,
        has_create: true,
        has_destroy: true,
        create_ok: true,
    }
}

fn descriptor() -> ModuleDescriptor {
    ModuleDescriptor::new(
        String::from("app_core"),
        String::from("create_app"),
        String::from("destroy_app"),
        BuildProfile::Debug,
        Platform::Unix,
    )
}

fn booted(modified: u64) -> (ModuleRuntime, FileSystem, LifecycleManager) {
    let mut rt = ModuleRuntime::new();
    let mut fs = FileSystem::new(healthy_artifact(modified));
    let manager = LifecycleManager::boot(&mut rt, &mut fs, descriptor(), AppState { counter: 0 })
        .expect("first load must succeed");
    (rt, fs, manager)
}

fn active_counter(manager: &LifecycleManager, rt: &ModuleRuntime) -> i32 {
    rt.instances[manager.active.instance].app.state.counter
}

#[test]
fn reload_preserves_state_across_three_increments() {
    let (mut rt, mut fs, mut manager) = booted(1_000);
    for _ in 0..3 {
        let signal = manager.update(&mut rt, &mut fs, Message::Increment);
        assert!(signal.is_none());
    }
    assert_eq!(active_counter(&manager, &rt), 3);
    fs.artifact.modified = 2_000;
    let signal = manager.update(&mut rt, &mut fs, Message::Tick);
    assert!(signal.is_some());
    assert!(manager.flushing);
    assert_eq!(manager.view(&rt), ViewDescription::Placeholder);
    let old_instance = manager.active.instance;
    let signal = manager.update(&mut rt, &mut fs, Message::Reload);
    assert!(signal.is_none());
    assert_ne!(manager.active.instance, old_instance);
    assert_eq!(active_counter(&manager, &rt), 3);
    assert_eq!(manager.view(&rt), ViewDescription::Counter { value: 3 });
    assert!(!rt.instances[old_instance].live);
}

#[test]
fn failed_reload_keeps_original_instance_responsive() {
    let (mut rt, mut fs, mut manager) = booted(1_000);
    for _ in 0..3 {
        manager.update(&mut rt, &mut fs, Message::Increment);
    }
    fs.artifact.modified = 2_000;
    fs.artifact.has_destroy = false;
    let signal = manager.update(&mut rt, &mut fs, Message::Tick);
    assert!(signal.is_some());
    let old_instance = manager.active.instance;
    manager.update(&mut rt, &mut fs, Message::Reload);
    assert_eq!(manager.active.instance, old_instance);
    assert_eq!(active_counter(&manager, &rt), 3);
    manager.update(&mut rt, &mut fs, Message::Decrement);
    assert_eq!(active_counter(&manager, &rt), 2);
    assert_eq!(manager.view(&rt), ViewDescription::Counter { value: 2 });
}

#[test]
fn two_touches_one_signal() {
    let (mut rt, mut fs, mut manager) = booted(1_000);
    fs.artifact.modified = 1_500;
    fs.artifact.modified = 2_000;
    let first = manager.update(&mut rt, &mut fs, Message::Tick);
    assert!(first.is_some());
    manager.update(&mut rt, &mut fs, Message::Reload);
    let second = manager.update(&mut rt, &mut fs, Message::Tick);
    assert!(second.is_none());
}

#[test]
fn null_construction_keeps_previous_view() {
    let (mut rt, mut fs, mut manager) = booted(1_000);
    manager.update(&mut rt, &mut fs, Message::Increment);
    fs.artifact.modified = 2_000;
    fs.artifact.create_ok = false;
    let signal = manager.update(&mut rt, &mut fs, Message::Tick);
    assert!(signal.is_some());
    assert_eq!(manager.view(&rt), ViewDescription::Placeholder);
    manager.update(&mut rt, &mut fs, Message::Reload);
    assert!(!manager.flushing);
    assert_eq!(manager.view(&rt), ViewDescription::Counter { value: 1 });
}

#[test]
fn failed_attempt_not_retried_against_same_timestamp() {
    let (mut rt, mut fs, mut manager) = booted(1_000);
    fs.artifact.modified = 2_000;
    fs.artifact.loadable = false;
    assert!(manager.update(&mut rt, &mut fs, Message::Tick).is_some());
    manager.update(&mut rt, &mut fs, Message::Reload);
    assert!(manager.update(&mut rt, &mut fs, Message::Tick).is_none());
    fs.artifact.modified = 3_000;
    assert!(manager.update(&mut rt, &mut fs, Message::Tick).is_some());
}

#[test]
fn unreadable_artifact_never_signals() {
    let (mut rt, mut fs, mut manager) = booted(1_000);
    fs.artifact.modified = 2_000;
    fs.artifact.readable = false;
    assert!(manager.update(&mut rt, &mut fs, Message::Tick).is_none());
    assert!(!manager.flushing);
}

#[test]
fn versioned_copies_accumulate_and_differ() {
    let (mut rt, mut fs, mut manager) = booted(1_000);
    assert_eq!(fs.copies.len(), 1);
    fs.artifact.modified = 2_000;
    manager.update(&mut rt, &mut fs, Message::Tick);
    manager.update(&mut rt, &mut fs, Message::Reload);
    assert_eq!(fs.copies.len(), 2);
    assert_ne!(fs.copies[0], fs.copies[1]);
}

#[test]
fn boot_failure_reports_first_failing_step() {
    let mut rt = ModuleRuntime::new();
    let mut artifact = healthy_artifact(1_000);
    artifact.readable = false;
    let mut fs = FileSystem::new(artifact);
    let refused = LifecycleManager::boot(&mut rt, &mut fs, descriptor(), AppState { counter: 0 });
    let error = match refused {
        Err(e) => e,
        Ok(_) => panic!("the first load must fail here"),
    };
    assert_eq!(error, LoadError::MetadataUnavailable);
    assert_eq!(fs.copies.len(), 0);
}

#[test]
fn shutdown_releases_everything() {
    let (mut rt, mut fs, mut manager) = booted(1_000);
    fs.artifact.modified = 2_000;
    manager.update(&mut rt, &mut fs, Message::Tick);
    manager.update(&mut rt, &mut fs, Message::Reload);
    manager.shutdown(&mut rt);
    assert!(rt.instances.iter().all(|i| !i.live));
    assert!(rt.images.iter().all(|resident| !resident));
}
