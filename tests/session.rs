use debmagic::common::{BuildConfig, BuildDriverType, BuildMetadata, DriverSpecificBuildMetadata};
use debmagic::session::{apply_session_ops, SessionOp};

fn config() -> BuildConfig {
    BuildConfig {
        package_identifier: "pkg-1.0".to_string(),
        build_root_dir: "/tmp/debmagic/pkg-1.0".to_string(),
        source_dir: "/src/pkg".to_string(),
        output_dir: "/out".to_string(),
        dry_run: false,
        distro_version: "trixie".to_string(),
        distro: "debian".to_string(),
        sign_package: false,
    }
}

fn fresh() -> BuildMetadata {
    BuildMetadata::new(BuildDriverType::Bare, config(), DriverSpecificBuildMetadata::new())
}

#[test]
fn counter_is_net_attaches_when_never_negative() {
    let mut m = fresh();
    let (a, d) = (SessionOp::Attach, SessionOp::Detach);
    apply_session_ops(&mut m, &vec![a, a, d, a]);
    assert_eq!(m.num_processes_attached, 2);
}

#[test]
fn counter_clamps_at_zero() {
    let mut m = fresh();
    let (a, d) = (SessionOp::Attach, SessionOp::Detach);
    apply_session_ops(&mut m, &vec![d, d, a, d, d, a]);
    assert_eq!(m.num_processes_attached, 1);
}

#[test]
fn balanced_sessions_return_to_zero() {
    let mut m = fresh();
    let (a, d) = (SessionOp::Attach, SessionOp::Detach);
    apply_session_ops(&mut m, &vec![a, a, a, d, a, d, d, d]);
    assert_eq!(m.num_processes_attached, 0);
}

#[test]
fn attach_and_detach_keep_the_rest() {
    let mut m = fresh();
    m.attach();
    assert_eq!(m.num_processes_attached, 1);
    m.detach();
    m.detach();
    assert_eq!(m.num_processes_attached, 0);
    assert_eq!(m.driver, BuildDriverType::Bare);
    assert_eq!(m.config.package_identifier, "pkg-1.0");
}

#[test]
fn driver_metadata_later_insert_wins() {
    let mut d = DriverSpecificBuildMetadata::new();
    d.insert("k".to_string(), "a".to_string());
    d.insert("k".to_string(), "b".to_string());
    assert_eq!(d.get("k"), Some("b".to_string()));
    assert_eq!(d.get("other"), None);
}

#[test]
fn build_config_paths() {
    let c = config();
    assert_eq!(c.build_identifier(), "pkg-1.0-debian-trixie");
    assert_eq!(c.build_work_dir(), "/tmp/debmagic/pkg-1.0/work");
    assert_eq!(c.build_temp_dir(), "/tmp/debmagic/pkg-1.0/temp");
    assert_eq!(c.build_source_dir(), "/tmp/debmagic/pkg-1.0/work/pkg-1.0");
    assert_eq!(
        c.required_dirs(),
        vec![
            "/out".to_string(),
            "/tmp/debmagic/pkg-1.0/work".to_string(),
            "/tmp/debmagic/pkg-1.0/temp".to_string(),
            "/tmp/debmagic/pkg-1.0/work/pkg-1.0".to_string(),
        ]
    );
}
