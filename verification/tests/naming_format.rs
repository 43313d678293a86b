//! The artifact path convention and the version-suffix format, pinned
//! on concrete values.

use live_reload::calendar::civil_of_timestamp;
use live_reload::naming::{make_lib_path, version_suffix, versioned_lib_path, BuildProfile, Platform};

#[test]
fn lib_path_windows_debug() {
    assert_eq!(
        make_lib_path("app_core", BuildProfile::Debug, Platform::Windows),
        "target/debug/app_core.dll"
    );
}

#[test]
fn lib_path_macos_release() {
    assert_eq!(
        make_lib_path("app_core", BuildProfile::Release, Platform::MacOs),
        "target/release/app_core.dylib"
    );
}

#[test]
fn lib_path_unix_debug() {
    assert_eq!(make_lib_path("app_core", BuildProfile::Debug, Platform::Unix), "target/debug/app_core.so");
}

#[test]
fn suffix_at_epoch() {
    assert_eq!(version_suffix(0), "1970-01-01_00-00-00");
}

#[test]
fn suffix_one_day_one_hour_one_minute_one_second_in() {
    assert_eq!(version_suffix(86400 + 3600 + 60 + 1), "1970-01-02_01-01-01");
}

#[test]
fn suffix_on_a_leap_day() {
    // 2024-02-29T12:30:45Z
    assert_eq!(version_suffix(1_709_209_845), "2024-02-29_12-30-45");
}

#[test]
fn suffix_at_end_of_leap_year() {
    // 2020-12-31T23:59:59Z
    assert_eq!(version_suffix(1_609_459_199), "2020-12-31_23-59-59");
}

#[test]
fn suffix_just_before_a_leap_day() {
    // 2024-02-28T23:59:59Z
    assert_eq!(version_suffix(1_709_164_799), "2024-02-28_23-59-59");
}

#[test]
fn civil_split_of_known_instant() {
    // 2000-03-01T06:07:08Z
    assert_eq!(civil_of_timestamp(951_890_828), (2000, 3, 1, 6, 7, 8));
}

#[test]
fn versioned_path_weaves_suffix_into_name() {
    assert_eq!(
        versioned_lib_path("app_core", 0, BuildProfile::Debug, Platform::Unix),
        "target/debug/app_core_1970-01-01_00-00-00.so"
    );
}

#[test]
fn versioned_paths_distinct_for_distinct_seconds() {
    let a = versioned_lib_path("app_core", 1_000, BuildProfile::Debug, Platform::Windows);
    let b = versioned_lib_path("app_core", 1_001, BuildProfile::Debug, Platform::Windows);
    assert_ne!(a, b);
}

#[test]
fn versioned_paths_collide_within_one_second() {
    // Second resolution: two loads within the same second would collide.
    let a = versioned_lib_path("app_core", 1_000, BuildProfile::Debug, Platform::Windows);
    let b = versioned_lib_path("app_core", 1_000, BuildProfile::Debug, Platform::Windows);
    assert_eq!(a, b);
}
