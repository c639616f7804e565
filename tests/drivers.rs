use debmagic::common::{
    exit_outcome, BuildConfig, BuildDriver, BuildDriverType, BuildMetadata, CommandPlan,
    DriverSpecificBuildMetadata, ExecutionError, MetadataError,
};
use debmagic::driver::{create_driver, create_driver_from_build_metadata, Driver, DriverConfig};
use debmagic::driver_bare::{DriverBare, DriverBareConfig};
use debmagic::driver_docker::{DriverDocker, DriverDockerConfig};

fn config(dry_run: bool) -> BuildConfig {
    BuildConfig {
        package_identifier: "pkg-1.0".to_string(),
        build_root_dir: "/tmp/debmagic/pkg-1.0".to_string(),
        source_dir: "/src/pkg".to_string(),
        output_dir: "/out".to_string(),
        dry_run,
        distro_version: "trixie".to_string(),
        distro: "debian".to_string(),
        sign_package: false,
    }
}

fn strings(v: &[&str]) -> Vec<String> {
    v.iter().map(|s| s.to_string()).collect()
}

fn docker(dry_run: bool, persistent: bool) -> DriverDocker {
    let dc = DriverDockerConfig { base_image: None, persistent };
    DriverDocker::create_with_name(&config(dry_run), &dc, 1000, 1000, "c1".to_string()).0
}

#[test]
fn bare_prefixes_sudo_only_for_unprivileged_callers() {
    let d = DriverBare::create(&config(false), &DriverBareConfig {});
    match d.run_command(&["apt-get", "install"], "/w", true, 1000).unwrap() {
        CommandPlan::Run(inv) => {
            assert_eq!(inv.argv, strings(&["sudo", "apt-get", "install"]));
            assert_eq!(inv.cwd, Some("/w".to_string()));
            assert!(inv.check_status);
        }
        CommandPlan::Skip(_) => panic!("a real run was expected"),
    }
    match d.run_command(&["apt-get"], "/w", true, 0).unwrap() {
        CommandPlan::Run(inv) => assert_eq!(inv.argv, strings(&["apt-get"])),
        CommandPlan::Skip(_) => panic!("a real run was expected"),
    }
    match d.run_command(&["make"], "/w", false, 1000).unwrap() {
        CommandPlan::Run(inv) => assert_eq!(inv.argv, strings(&["make"])),
        CommandPlan::Skip(_) => panic!("a real run was expected"),
    }
}

#[test]
fn bare_dry_run_never_runs() {
    let d = DriverBare::create(&config(true), &DriverBareConfig {});
    match d.run_command(&["make"], "/anywhere", true, 1000).unwrap() {
        CommandPlan::Skip(shown) => assert_eq!(shown, strings(&["sudo", "make"])),
        CommandPlan::Run(_) => panic!("dry run must not run"),
    }
    assert!(matches!(d.run_command(&[], "/w", false, 0), Ok(CommandPlan::Skip(_))));
    assert!(matches!(d.drop_into_shell(), Ok(CommandPlan::Skip(_))));
}

#[test]
fn bare_refuses_an_empty_command() {
    let d = DriverBare::create(&config(false), &DriverBareConfig {});
    assert_eq!(d.run_command(&[], "/w", false, 0).unwrap_err(), ExecutionError::EmptyCommand);
}

#[test]
fn bare_shell_cleanup_and_metadata() {
    let d = DriverBare::create(&config(false), &DriverBareConfig {});
    assert!(d.cleanup().is_none());
    assert!(d.get_build_metadata().pairs().is_empty());
    assert_eq!(d.driver_type(), BuildDriverType::Bare);
    match d.drop_into_shell().unwrap() {
        CommandPlan::Run(inv) => {
            assert_eq!(inv.argv, strings(&["/usr/bin/env", "bash"]));
            assert!(!inv.check_status);
        }
        CommandPlan::Skip(_) => panic!("a shell was expected"),
    }
}

#[test]
fn container_paths_are_translated_under_the_mount() {
    let d = docker(false, false);
    assert_eq!(
        d.translate_path_in_container("/tmp/debmagic/pkg-1.0/work/pkg-1.0").unwrap(),
        "/debmagic/work/pkg-1.0"
    );
    assert_eq!(d.translate_path_in_container("/tmp/debmagic/pkg-1.0").unwrap(), "/debmagic/");
    assert_eq!(
        d.translate_path_in_container("/home/me").unwrap_err(),
        ExecutionError::PathOutsideBuildRoot { path: "/home/me".to_string() }
    );
}

#[test]
fn container_paths_compare_by_components() {
    let dc = DriverDockerConfig { base_image: None, persistent: false };
    let mut c = config(true);
    c.build_root_dir = "/x/root/".to_string();
    let d = DriverDocker::create_with_name(&c, &dc, 1000, 1000, "c1".to_string()).0;
    assert_eq!(d.translate_path_in_container("/x/root").unwrap(), "/debmagic/");
    assert_eq!(d.translate_path_in_container("/x/root//a/./b").unwrap(), "/debmagic/a/b");
    assert!(d.translate_path_in_container("/x/root2").is_err());
    match d.run_command(&["ls"], "/x/root", false, 1000).unwrap() {
        CommandPlan::Skip(shown) => {
            assert_eq!(shown, strings(&["docker", "exec", "--workdir", "/debmagic/", "c1", "ls"]))
        }
        CommandPlan::Run(_) => panic!("dry run must not run"),
    }
}

#[test]
fn container_refuses_a_working_directory_outside_the_build_root() {
    let d = docker(false, false);
    let r = d.run_command(&["ls"], "/tmp/debmagic/other", false, 1000);
    assert_eq!(
        r.unwrap_err(),
        ExecutionError::PathOutsideBuildRoot { path: "/tmp/debmagic/other".to_string() }
    );
}

#[test]
fn container_exec_line() {
    let d = docker(false, false);
    match d.run_command(&["apt-get", "-y"], "/tmp/debmagic/pkg-1.0/work", true, 1000).unwrap() {
        CommandPlan::Run(inv) => {
            assert_eq!(
                inv.argv,
                strings(&[
                    "docker", "exec", "--workdir", "/debmagic/work", "--user", "root", "c1",
                    "apt-get", "-y"
                ])
            );
            assert!(inv.check_status);
            assert_eq!(inv.cwd, None);
        }
        CommandPlan::Skip(_) => panic!("a real run was expected"),
    }
}

#[test]
fn container_dry_run_never_runs() {
    let d = docker(true, false);
    match d.run_command(&["make"], "/tmp/debmagic/pkg-1.0", false, 1000).unwrap() {
        CommandPlan::Skip(shown) => {
            assert_eq!(shown, strings(&["docker", "exec", "--workdir", "/debmagic/", "c1", "make"]))
        }
        CommandPlan::Run(_) => panic!("dry run must not run"),
    }
    assert!(matches!(d.drop_into_shell(), Ok(CommandPlan::Skip(_))));
    assert!(d.container_acquisition(false).is_empty());
    assert!(d.cleanup().is_none());
}

#[test]
fn container_setup_renders_the_image_definition() {
    let dc = DriverDockerConfig { base_image: None, persistent: false };
    let (d, setup) = DriverDocker::create_with_name(&config(false), &dc, 1000, 0, "c1".to_string());
    assert_eq!(setup.image_name, "debmagic-pkg-1.0-debian-trixie");
    assert_eq!(setup.dockerfile_path, "/tmp/debmagic/pkg-1.0/temp/Dockerfile");
    assert!(setup.dockerfile.contains("FROM docker.io/debian:trixie\n"));
    assert!(setup.dockerfile.contains("ARG USERNAME=user\n"));
    assert!(setup.dockerfile.contains("RUN mkdir -p /debmagic\n"));
    assert!(!setup.dockerfile.contains('{'));
    assert_eq!(setup.control_dir, "/tmp/debmagic/pkg-1.0/temp/debian");
    assert_eq!(setup.control_source, "/tmp/debmagic/pkg-1.0/work/pkg-1.0/debian/control");
    assert_eq!(setup.control_target, "/tmp/debmagic/pkg-1.0/temp/debian/control");
    let build = setup.image_build.unwrap();
    assert_eq!(
        build.argv,
        strings(&[
            "docker",
            "build",
            "--build-arg",
            "USER_UID=1000",
            "--tag",
            "debmagic-pkg-1.0-debian-trixie",
            "-f",
            "/tmp/debmagic/pkg-1.0/temp/Dockerfile",
            "/tmp/debmagic/pkg-1.0/temp",
        ])
    );
    let acquire = d.container_acquisition(false);
    assert_eq!(acquire.len(), 1);
    assert_eq!(
        acquire[0].argv,
        strings(&[
            "docker",
            "run",
            "--detach",
            "--name",
            "c1",
            "--mount",
            "type=bind,src=/tmp/debmagic/pkg-1.0,dst=/debmagic",
            "debmagic-pkg-1.0-debian-trixie",
        ])
    );
    assert_eq!(d.cleanup().unwrap().argv, strings(&["docker", "rm", "-f", "c1"]));
}

#[test]
fn container_base_image_override() {
    let dc = DriverDockerConfig { base_image: Some("ubuntu:24.04".to_string()), persistent: false };
    let (_, setup) = DriverDocker::create_with_name(&config(true), &dc, 0, 0, "c1".to_string());
    assert!(setup.dockerfile.contains("FROM ubuntu:24.04\n"));
    assert!(setup.image_build.is_none());
}

#[test]
fn persistent_container_is_named_after_the_build_and_reused() {
    let dc = DriverDockerConfig { base_image: None, persistent: true };
    let (d, _) = DriverDocker::create(&config(false), &dc, 1000, 1000);
    let meta = d.get_build_metadata();
    assert_eq!(meta.get("container_name"), Some("debmagic-pkg-1.0-debian-trixie".to_string()));
    let again = d.container_acquisition(true);
    assert_eq!(again.len(), 1);
    assert_eq!(again[0].argv, strings(&["docker", "start", "debmagic-pkg-1.0-debian-trixie"]));
    let fresh = d.container_acquisition(false);
    assert_eq!(fresh.len(), 2);
    assert_eq!(fresh[0].argv, strings(&["docker", "rm", "-f", "debmagic-pkg-1.0-debian-trixie"]));
    assert_eq!(fresh[1].argv[1], "run");
    assert_eq!(d.cleanup().unwrap().argv, strings(&["docker", "stop", "debmagic-pkg-1.0-debian-trixie"]));
}

#[test]
fn fresh_containers_get_random_names() {
    let dc = DriverDockerConfig { base_image: None, persistent: false };
    let (a, _) = DriverDocker::create(&config(false), &dc, 1000, 1000);
    let (b, _) = DriverDocker::create(&config(false), &dc, 1000, 1000);
    let na = a.get_build_metadata().get("container_name").unwrap();
    let nb = b.get_build_metadata().get("container_name").unwrap();
    assert_eq!(na.len(), 36);
    assert_ne!(na, nb);
}

#[test]
fn driver_is_rebuilt_from_metadata() {
    let mut dm = DriverSpecificBuildMetadata::new();
    dm.insert("container_name".to_string(), "abc".to_string());
    let meta = BuildMetadata::new(BuildDriverType::Docker, config(false), dm);
    let d = create_driver_from_build_metadata(&DriverConfig::default(), &meta).unwrap();
    assert_eq!(d.driver_type(), BuildDriverType::Docker);
    assert_eq!(d.get_build_metadata().get("container_name"), Some("abc".to_string()));

    let missing =
        BuildMetadata::new(BuildDriverType::Docker, config(false), DriverSpecificBuildMetadata::new());
    assert!(matches!(
        create_driver_from_build_metadata(&DriverConfig::default(), &missing),
        Err(MetadataError::MissingContainerName)
    ));
    let bare =
        BuildMetadata::new(BuildDriverType::Bare, config(false), DriverSpecificBuildMetadata::new());
    assert!(matches!(
        create_driver_from_build_metadata(&DriverConfig::default(), &bare),
        Ok(Driver::Bare(_))
    ));
}

#[test]
fn create_driver_by_kind() {
    let (d, setup) = create_driver(BuildDriverType::Bare, &config(false), &DriverConfig::default(), 0, 0);
    assert_eq!(d.driver_type(), BuildDriverType::Bare);
    assert!(setup.is_none());
    let (d, setup) =
        create_driver(BuildDriverType::Docker, &config(false), &DriverConfig::default(), 0, 0);
    assert_eq!(d.driver_type(), BuildDriverType::Docker);
    assert!(setup.is_some());
}

#[test]
fn exit_status_decides_success() {
    assert_eq!(exit_outcome(true, Some(0)), Ok(()));
    assert_eq!(exit_outcome(true, Some(2)), Err(ExecutionError::Failed { code: Some(2) }));
    assert_eq!(exit_outcome(true, None), Err(ExecutionError::Failed { code: None }));
    assert_eq!(exit_outcome(false, Some(2)), Ok(()));
}
