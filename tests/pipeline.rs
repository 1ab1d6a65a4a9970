use rust_buildpack::assembly::{artifact_path, is_valid_process_type, launch_descriptor, prune_entries};
use rust_buildpack::targets::{binary_targets, is_bin, ManifestTarget, Metadata, Package, TargetKind};
use rust_buildpack::toolchain::{
    installer_args, require_toolchain_path, resolve_version, rust_long, tarball_url,
    toolchain_path, ExistingLayerStrategy, RustToolchain, ToolchainAction,
};
use rust_buildpack::{BuildpackError, DetectOutcome, RustBuildpack};

fn target(name: &str, kinds: Vec<TargetKind>) -> ManifestTarget {
    ManifestTarget { name: name.to_string(), kinds }
}

fn metadata(targets: Vec<ManifestTarget>) -> Metadata {
    Metadata { root_package: Some(Package { targets }) }
}

#[test]
fn detect_passes_with_lock_file() {
    let outcome = RustBuildpack.detect(true);
    assert_eq!(outcome, DetectOutcome::Pass);
    assert!(RustBuildpack::should_build(&outcome));
}

#[test]
fn detect_fails_without_lock_file_and_build_is_not_run() {
    let outcome = RustBuildpack.detect(false);
    assert_eq!(outcome, DetectOutcome::Fail);
    assert!(!RustBuildpack::should_build(&outcome));
}

#[test]
fn toolchain_layer_is_kept_and_reused() {
    let layer = RustToolchain;
    assert_eq!(layer.existing_layer_strategy(), ExistingLayerStrategy::Keep);
    assert_eq!(layer.action(true), ToolchainAction::Reuse);
    assert_eq!(layer.action(false), ToolchainAction::Install);
    let t = layer.types();
    assert!(!t.launch && t.build && t.cache);
}

#[test]
fn reused_layer_gives_same_path_as_fresh_install() {
    let ambient = Some("/usr/bin".to_string());
    let fresh = toolchain_path("/layers/rust-toolchain", &ambient);
    let again = toolchain_path("/layers/rust-toolchain", &ambient);
    assert_eq!(fresh, "/layers/rust-toolchain/bin:/usr/bin");
    assert_eq!(fresh, again);
    assert_eq!(toolchain_path("/l", &None), "/l/bin");
}

#[test]
fn missing_toolchain_path_is_fatal() {
    assert_eq!(require_toolchain_path(None), Err(BuildpackError::RustToolchainPath));
    assert_eq!(require_toolchain_path(Some("/p".to_string())), Ok("/p".to_string()));
}

#[test]
fn version_resolution() {
    assert_eq!(resolve_version(Some("1.70.0".to_string()), Some("1.75.0".to_string())), Ok("1.70.0".to_string()));
    assert_eq!(resolve_version(None, Some("1.75.0".to_string())), Ok("1.75.0".to_string()));
    assert_eq!(resolve_version(None, None), Err(BuildpackError::ReleaseIndex));
}

#[test]
fn archive_name_and_url() {
    assert_eq!(rust_long("1.75.0"), "rust-1.75.0-x86_64-unknown-linux-gnu");
    assert_eq!(
        tarball_url("1.75.0"),
        "https://static.rust-lang.org/dist/rust-1.75.0-x86_64-unknown-linux-gnu.tar.gz"
    );
}

#[test]
fn installer_arguments() {
    assert_eq!(installer_args("/layers/t"), vec!["--destdir=/layers/t".to_string(), "--prefix=/".to_string()]);
}

#[test]
fn only_binary_targets_are_resolved() {
    let m = metadata(vec![
        target("lib", vec![TargetKind::Lib]),
        target("api", vec![TargetKind::Bin]),
        target("it", vec![TargetKind::Test]),
        target("ex", vec![TargetKind::Example]),
        target("worker", vec![TargetKind::Bin]),
    ]);
    assert_eq!(binary_targets(&m), vec!["api".to_string(), "worker".to_string()]);
    assert!(is_bin(&target("x", vec![TargetKind::Lib, TargetKind::Bin])));
    assert!(!is_bin(&target("x", vec![])));
}

#[test]
fn non_binary_targets_do_not_change_the_result() {
    let few = metadata(vec![target("api", vec![TargetKind::Bin])]);
    let many = metadata(vec![
        target("b", vec![TargetKind::Bench]),
        target("api", vec![TargetKind::Bin]),
        target("o", vec![TargetKind::Other]),
    ]);
    assert_eq!(binary_targets(&few), binary_targets(&many));
}

#[test]
fn no_root_package_resolves_nothing() {
    assert!(binary_targets(&Metadata { root_package: None }).is_empty());
}

#[test]
fn process_type_names() {
    assert!(is_valid_process_type("web"));
    assert!(is_valid_process_type("A-b_c.9"));
    assert!(!is_valid_process_type(""));
    assert!(!is_valid_process_type("has space"));
    assert!(!is_valid_process_type("caf\u{e9}"));
}

#[test]
fn invalid_target_name_fails_the_build() {
    let targets = vec!["api".to_string(), "bad/name".to_string()];
    assert!(matches!(launch_descriptor(&targets), Err(BuildpackError::InvalidProcessType)));
}

#[test]
fn end_to_end_api_and_worker() {
    let m = metadata(vec![
        target("api", vec![TargetKind::Bin]),
        target("core", vec![TargetKind::Lib]),
        target("worker", vec![TargetKind::Bin]),
    ]);
    let targets = binary_targets(&m);
    assert_eq!(targets, vec!["api".to_string(), "worker".to_string()]);
    assert_eq!(
        prune_entries(),
        vec!["src".to_string(), "Cargo.toml".to_string(), "Cargo.lock".to_string()]
    );
    assert_eq!(artifact_path("api"), "release/api");
    assert_eq!(artifact_path("worker"), "release/worker");
    let procs = match launch_descriptor(&targets) {
        Ok(p) => p,
        Err(_) => panic!("descriptor failed"),
    };
    assert_eq!(procs.len(), 2);
    assert_eq!(procs[0].kind, "api");
    assert_eq!(procs[0].command, "api");
    assert!(procs[0].args.is_empty());
    assert_eq!(procs[1].kind, "worker");
    assert_eq!(procs[1].command, "worker");
    assert!(procs[1].args.is_empty());
}
