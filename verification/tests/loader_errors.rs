//! The loader's error taxonomy: each failing step reports its own
//! error, resources loaded on the way are released again, and the
//! module behavior itself reacts to events as specified.

use live_reload::core_app::{AppInterface, CoreApp, ViewDescription};
use live_reload::loader::{load, Artifact, FileSystem, LoadError, ModuleDescriptor};
use live_reload::naming::{BuildProfile, Platform};
use live_reload::runtime::ModuleRuntime;
use live_reload::shared::{AppState, Message};

fn artifact(modified: u64) -> Artifact {
    Artifact {
        readable: true,
        has_timestamp: true,
        modified,
        copy_ok: true,
        loadable: true,
        has_create: true,
        has_destroy: true,
        create_ok: true,
    }
}

fn descriptor() -> ModuleDescriptor {
    ModuleDescriptor::new(
        String::from("app_core"),
        String::from("create_app"),
        String::from("destroy_app"),
        BuildProfile::Debug,
        Platform::Windows,
    )
}

fn attempt(a: Artifact) -> (Result<live_reload::loader::LoadedModule, LoadError>, ModuleRuntime, FileSystem) {
    let mut rt = ModuleRuntime::new();
    let mut fs = FileSystem::new(a);
    let r = load(&mut rt, &mut fs, &descriptor(), AppState { counter: 7 });
    (r, rt, fs)
}

#[test]
fn metadata_unavailable() {
    let mut a = artifact(5);
    a.readable = false;
    let (r, rt, fs) = attempt(a);
    assert_eq!(r.unwrap_err(), LoadError::MetadataUnavailable);
    assert_eq!(fs.copies.len(), 0);
    assert_eq!(rt.images.len(), 0);
}

#[test]
fn timestamp_unavailable() {
    let mut a = artifact(5);
    a.has_timestamp = false;
    let (r, _, fs) = attempt(a);
    assert_eq!(r.unwrap_err(), LoadError::TimestampUnavailable);
    assert_eq!(fs.copies.len(), 0);
}

#[test]
fn copy_failed() {
    let mut a = artifact(5);
    a.copy_ok = false;
    let (r, _, fs) = attempt(a);
    assert_eq!(r.unwrap_err(), LoadError::CopyFailed);
    assert_eq!(fs.copies.len(), 0);
}

#[test]
fn load_failed_after_copy() {
    let mut a = artifact(5);
    a.loadable = false;
    let (r, rt, fs) = attempt(a);
    assert_eq!(r.unwrap_err(), LoadError::LoadFailed);
    assert_eq!(fs.copies.len(), 1);
    assert_eq!(rt.images.len(), 0);
}

#[test]
fn create_symbol_not_found_releases_image() {
    let mut a = artifact(5);
    a.has_create = false;
    let (r, rt, _) = attempt(a);
    assert_eq!(r.unwrap_err(), LoadError::SymbolNotFound(String::from("create_app")));
    assert_eq!(rt.images, vec![false]);
    assert_eq!(rt.instances.len(), 0);
}

#[test]
fn destroy_symbol_not_found_releases_image() {
    let mut a = artifact(5);
    a.has_destroy = false;
    let (r, rt, _) = attempt(a);
    assert_eq!(r.unwrap_err(), LoadError::SymbolNotFound(String::from("destroy_app")));
    assert_eq!(rt.images, vec![false]);
}

#[test]
fn construction_failed_on_null_instance() {
    let mut a = artifact(5);
    a.create_ok = false;
    let (r, rt, _) = attempt(a);
    assert_eq!(r.unwrap_err(), LoadError::ConstructionFailed);
    assert_eq!(rt.images, vec![false]);
    assert_eq!(rt.instances.len(), 0);
}

#[test]
fn null_instance_is_its_own_error() {
    // The host-side guard against using an instance handle that does
    // not exist reports NullInstance, distinct from a constructor that
    // refused.
    assert_ne!(LoadError::NullInstance, LoadError::ConstructionFailed);
    assert!(matches!(LoadError::NullInstance, LoadError::NullInstance));
}

#[test]
fn successful_load_constructs_from_snapshot() {
    let (r, rt, fs) = attempt(artifact(5));
    let m = r.unwrap();
    assert_eq!(m.modified, 5);
    assert!(rt.images[m.image]);
    assert!(rt.instances[m.instance].live);
    assert_eq!(rt.instances[m.instance].app.state.counter, 7);
    assert_eq!(fs.copies.len(), 1);
    assert_eq!(fs.copies[0], "target/debug/app_core_1970-01-01_00-00-05.dll");
}

#[test]
fn descriptor_resolves_artifact_path() {
    assert_eq!(descriptor().artifact_path(), "target/debug/app_core.dll");
}

#[test]
fn core_app_reacts_to_events() {
    let mut app = CoreApp::new(AppState { counter: 0 });
    app.update(Message::Increment);
    app.update(Message::Increment);
    app.update(Message::Decrement);
    app.update(Message::Tick);
    app.update(Message::Reload);
    assert_eq!(app.state().counter, 1);
    assert_eq!(app.view(), ViewDescription::Counter { value: 1 });
}
