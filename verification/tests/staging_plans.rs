use sidecar_supervisor::platform::{
    get_cache_dir_name, get_sidecar_exe_name, get_support_dir_name, Platform,
};
use sidecar_supervisor::stager::{
    choose_launch_method, get_staged_executable_location, get_staged_support_location,
    is_shared_library_name, plan_staging, BundleProbe, LaunchMethod, StageAction, StagePlan,
};

fn packaged() -> BundleProbe {
    BundleProbe {
        support_source_present: true,
        source_located: true,
        source_present: true,
        source_size: Some(1000),
        staged_executable_present: false,
        staged_support_present: false,
        staged_size: None,
    }
}

fn after(probe: BundleProbe) -> BundleProbe {
    BundleProbe {
        staged_executable_present: true,
        staged_support_present: true,
        staged_size: probe.source_size,
        ..probe
    }
}

#[test]
fn sidecar_names_follow_the_platform() {
    assert_eq!(get_sidecar_exe_name(Platform::Unix), "provisioning-station");
    assert_eq!(get_sidecar_exe_name(Platform::Windows), "provisioning-station.exe");
    assert_eq!(get_support_dir_name(), "_internal");
    assert_eq!(get_cache_dir_name(), "sidecar");
}

#[test]
fn staging_is_not_applicable_in_a_development_layout() {
    let probe = BundleProbe { support_source_present: false, ..after(packaged()) };
    let plan = plan_staging(Platform::Unix, probe);
    assert_eq!(plan, StagePlan::NotApplicable);
    assert_eq!(choose_launch_method(&plan, true), LaunchMethod::Default);
}

#[test]
fn first_launch_stages_everything() {
    let plan = plan_staging(Platform::Unix, packaged());
    assert_eq!(
        plan,
        StagePlan::Restage {
            actions: vec![
                StageAction::CreateCacheDir,
                StageAction::CopyExecutable,
                StageAction::MarkExecutable,
                StageAction::CopySupportDir,
                StageAction::MarkLibraries,
            ]
        }
    );
    assert_eq!(choose_launch_method(&plan, true), LaunchMethod::Staged);
    assert_eq!(choose_launch_method(&plan, false), LaunchMethod::Default);
    assert_eq!(
        plan_staging(Platform::Windows, packaged()),
        StagePlan::Restage {
            actions: vec![
                StageAction::CreateCacheDir,
                StageAction::CopyExecutable,
                StageAction::CopySupportDir,
            ]
        }
    );
}

#[test]
fn unchanged_fingerprint_copies_nothing_on_the_second_launch() {
    let first = plan_staging(Platform::Unix, packaged());
    assert!(matches!(first, StagePlan::Restage { .. }));
    let second = plan_staging(Platform::Unix, after(packaged()));
    assert_eq!(second, StagePlan::Reuse);
    assert_eq!(choose_launch_method(&second, false), LaunchMethod::Staged);
}

#[test]
fn changed_fingerprint_replaces_the_support_directory() {
    let upgraded = BundleProbe { source_size: Some(1234), ..after(packaged()) };
    let plan = plan_staging(Platform::Unix, upgraded);
    match plan {
        StagePlan::Restage { actions } => {
            let remove = actions.iter().position(|a| *a == StageAction::RemoveSupportDir);
            let copy = actions.iter().position(|a| *a == StageAction::CopySupportDir);
            let exe = actions.iter().position(|a| *a == StageAction::CopyExecutable);
            assert!(exe.unwrap() < remove.unwrap());
            assert!(remove.unwrap() < copy.unwrap());
            assert_eq!(
                actions,
                vec![
                    StageAction::CreateCacheDir,
                    StageAction::CopyExecutable,
                    StageAction::MarkExecutable,
                    StageAction::RemoveSupportDir,
                    StageAction::CopySupportDir,
                    StageAction::MarkLibraries,
                ]
            );
        }
        other => panic!("a stale cache has to be replaced, not {:?}", other),
    }
}

#[test]
fn unreadable_sizes_count_as_zero() {
    let probe = BundleProbe { source_size: None, staged_size: Some(0), ..after(packaged()) };
    assert_eq!(plan_staging(Platform::Unix, probe), StagePlan::Reuse);
    let probe = BundleProbe { source_size: None, staged_size: Some(5), ..after(packaged()) };
    assert!(matches!(plan_staging(Platform::Unix, probe), StagePlan::Restage { .. }));
}

#[test]
fn missing_source_fails_the_staging_only_when_a_copy_is_needed() {
    let gone = BundleProbe { source_present: false, source_size: None, ..packaged() };
    let plan = plan_staging(Platform::Unix, gone);
    assert_eq!(plan, StagePlan::SourceMissing);
    assert_eq!(choose_launch_method(&plan, true), LaunchMethod::Default);
    let half = BundleProbe { staged_support_present: false, ..after(packaged()) };
    assert!(matches!(plan_staging(Platform::Windows, half), StagePlan::Restage { .. }));
}

#[test]
fn shared_library_names_are_recognised() {
    assert!(is_shared_library_name("libssl.so"));
    assert!(is_shared_library_name("libssl.so.3"));
    assert!(is_shared_library_name("libpython3.11.dylib"));
    assert!(is_shared_library_name(".so"));
    assert!(!is_shared_library_name("libssl.so3"));
    assert!(!is_shared_library_name("module.pyc"));
    assert!(!is_shared_library_name("notes.dylib.txt"));
    assert!(!is_shared_library_name(""));
}

#[test]
fn staged_copy_lies_in_the_cache_directory() {
    assert_eq!(
        get_staged_executable_location(Platform::Unix),
        vec!["sidecar", "provisioning-station"]
    );
    assert_eq!(
        get_staged_executable_location(Platform::Windows),
        vec!["sidecar", "provisioning-station.exe"]
    );
    assert_eq!(get_staged_support_location(), vec!["sidecar", "_internal"]);
}

#[test]
fn unknown_place_of_the_source_fails_the_staging_even_with_a_fresh_cache() {
    let lost = BundleProbe {
        source_located: false,
        source_present: false,
        source_size: None,
        staged_size: Some(0),
        ..after(packaged())
    };
    let plan = plan_staging(Platform::Unix, lost);
    assert_eq!(plan, StagePlan::SourceMissing);
    assert_eq!(choose_launch_method(&plan, true), LaunchMethod::Default);
    let development = BundleProbe { support_source_present: false, ..lost };
    assert_eq!(plan_staging(Platform::Unix, development), StagePlan::NotApplicable);
}
