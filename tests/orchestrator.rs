use debmagic::common::{BuildDriverType, CommandPlan, ExecutionError, PackageDescription};
use debmagic::driver::{create_driver, DriverConfig};
use debmagic::orchestrator::{
    get_build_root_and_identifier, new_build_config, BuildAction, BuildEvent, BuildFailure,
    BuildPhase, BuildRun,
};
use debmagic::settings::Config;

fn settings(dry_run: bool) -> Config {
    let mut c = Config::new_default();
    c.dry_run = dry_run;
    c
}

fn package() -> PackageDescription {
    PackageDescription {
        name: "hello".to_string(),
        version: "1.0".to_string(),
        source_dir: "/src/hello".to_string(),
    }
}

fn strings(v: &[&str]) -> Vec<String> {
    v.iter().map(|s| s.to_string()).collect()
}

#[test]
fn build_root_and_identifier() {
    let (id, root) = get_build_root_and_identifier(&settings(false), &package());
    assert_eq!(id, "hello-1.0");
    assert_eq!(root, "/tmp/debmagic/hello-1.0");
    let c = new_build_config(&settings(true), &package(), "/out");
    assert_eq!(c.build_root_dir, "/tmp/debmagic/hello-1.0");
    assert_eq!(c.distro, "debian");
    assert_eq!(c.distro_version, "trixie");
    assert!(c.dry_run);
    assert!(!c.sign_package);
}

#[test]
fn successful_build_runs_two_commands_collects_four_kinds_and_cleans_up() {
    let config = new_build_config(&settings(false), &package(), "/out");
    let (driver, _) = create_driver(BuildDriverType::Docker, &config, &DriverConfig::default(), 1000, 1000);
    let mut run = BuildRun::new(false, None);

    match run.step(&driver, &config, 1000, BuildEvent::Succeeded) {
        BuildAction::PersistMetadata(m) => {
            assert_eq!(m.num_processes_attached, 0);
            assert_eq!(m.driver, BuildDriverType::Docker);
            assert!(m.driver_metadata.get("container_name").is_some());
        }
        other => panic!("unexpected {other:?}"),
    }
    let mut commands = Vec::new();
    for _ in 0..2 {
        match run.step(&driver, &config, 1000, BuildEvent::Succeeded) {
            BuildAction::Run(CommandPlan::Run(inv)) => commands.push(inv.argv),
            other => panic!("unexpected {other:?}"),
        }
    }
    assert_eq!(commands[0][1..4], strings(&["exec", "--workdir", "/debmagic/work/hello-1.0"])[..]);
    assert_eq!(commands[0][4..6], strings(&["--user", "root"])[..]);
    assert_eq!(commands[0][7..], strings(&["apt-get", "-y", "build-dep", "."])[..]);
    assert!(commands[1].ends_with(&strings(&["dpkg-buildpackage", "-us", "-uc", "-ui", "-nc", "-b"])));
    assert!(!commands[1].contains(&"--user".to_string()));

    let mut patterns = Vec::new();
    for _ in 0..4 {
        match run.step(&driver, &config, 1000, BuildEvent::Succeeded) {
            BuildAction::CollectArtifacts { from_dir, pattern, to_dir } => {
                assert_eq!(from_dir, "/tmp/debmagic/hello-1.0/work/hello-1.0/..");
                assert_eq!(to_dir, "/out");
                patterns.push(pattern);
            }
            other => panic!("unexpected {other:?}"),
        }
    }
    assert_eq!(patterns, strings(&["*.deb", "*.changes", "*.buildinfo", "*.dsc"]));

    assert!(matches!(run.step(&driver, &config, 1000, BuildEvent::Succeeded), BuildAction::ReadAttachCount));
    assert!(matches!(run.step(&driver, &config, 1000, BuildEvent::AttachCount(1)), BuildAction::Wait));
    assert!(matches!(
        run.step(&driver, &config, 1000, BuildEvent::Succeeded),
        BuildAction::ReadAttachCount
    ));
    match run.step(&driver, &config, 1000, BuildEvent::AttachCount(0)) {
        BuildAction::Cleanup(Some(inv)) => assert_eq!(inv.argv[1..3], strings(&["rm", "-f"])[..]),
        other => panic!("unexpected {other:?}"),
    }
    assert!(matches!(run.step(&driver, &config, 1000, BuildEvent::Succeeded), BuildAction::Finish(Ok(()))));
    assert_eq!(run.phase(), BuildPhase::Finished);
}

fn fail_at_install(interactive: bool) -> (usize, BuildAction) {
    let config = new_build_config(&settings(false), &package(), "/out");
    let (driver, _) = create_driver(BuildDriverType::Bare, &config, &DriverConfig::default(), 1000, 1000);
    let mut run = BuildRun::new(interactive, None);
    let failure = BuildEvent::CommandFailed(ExecutionError::Failed { code: Some(100) });
    let mut events = vec![BuildEvent::Succeeded, BuildEvent::Succeeded, failure];
    events.extend((0..6).map(|_| BuildEvent::AttachCount(0)));
    let mut shells = 0;
    let mut last = None;
    for e in events {
        let a = run.step(&driver, &config, 1000, e);
        if matches!(a, BuildAction::OpenShell(_)) {
            shells += 1;
        }
        last = Some(a);
    }
    (shells, last.unwrap())
}

#[test]
fn failed_install_opens_one_shell_when_interactive() {
    let (shells, last) = fail_at_install(true);
    assert_eq!(shells, 1);
    assert!(matches!(
        last,
        BuildAction::Finish(Err(BuildFailure::Execution(ExecutionError::Failed { code: Some(100) })))
    ));
}

#[test]
fn failed_install_opens_no_shell_when_not_interactive() {
    let (shells, last) = fail_at_install(false);
    assert_eq!(shells, 0);
    assert!(matches!(last, BuildAction::Finish(Err(BuildFailure::Execution(_)))));
}

#[test]
fn signing_is_refused_explicitly() {
    let mut config = new_build_config(&settings(true), &package(), "/out");
    config.sign_package = true;
    let (driver, _) = create_driver(BuildDriverType::Bare, &config, &DriverConfig::default(), 0, 0);
    let mut run = BuildRun::new(false, None);
    for _ in 0..3 {
        run.step(&driver, &config, 0, BuildEvent::Succeeded);
    }
    assert!(matches!(run.step(&driver, &config, 0, BuildEvent::Succeeded), BuildAction::ReadAttachCount));
    run.step(&driver, &config, 0, BuildEvent::AttachCount(0));
    assert!(matches!(
        run.step(&driver, &config, 0, BuildEvent::Succeeded),
        BuildAction::Finish(Err(BuildFailure::SigningUnsupported))
    ));
}

#[test]
fn dry_run_build_plans_no_process() {
    let config = new_build_config(&settings(true), &package(), "/out");
    let (driver, _) = create_driver(BuildDriverType::Bare, &config, &DriverConfig::default(), 1000, 1000);
    let mut run = BuildRun::new(false, None);
    run.step(&driver, &config, 1000, BuildEvent::Succeeded);
    for _ in 0..2 {
        assert!(matches!(
            run.step(&driver, &config, 1000, BuildEvent::Succeeded),
            BuildAction::Run(CommandPlan::Skip(_))
        ));
    }
}

#[test]
fn version_control_directories_are_not_copied() {
    assert!(debmagic::orchestrator::is_skipped_when_copying(".git"));
    assert!(debmagic::orchestrator::is_skipped_when_copying(".svn"));
    assert!(!debmagic::orchestrator::is_skipped_when_copying("debian"));
    assert!(!debmagic::orchestrator::is_skipped_when_copying(".gitignore"));
}

#[test]
fn unreadable_attach_counter_fails_the_build_and_releases_the_backend() {
    let config = new_build_config(&settings(false), &package(), "/out");
    let (driver, _) = create_driver(BuildDriverType::Docker, &config, &DriverConfig::default(), 1000, 1000);
    let mut run = BuildRun::new(false, None);
    for _ in 0..7 {
        run.step(&driver, &config, 1000, BuildEvent::Succeeded);
    }
    assert!(matches!(run.step(&driver, &config, 1000, BuildEvent::Succeeded), BuildAction::ReadAttachCount));
    assert!(matches!(
        run.step(&driver, &config, 1000, BuildEvent::IoFailed("corrupt".to_string())),
        BuildAction::Cleanup(Some(_))
    ));
    match run.step(&driver, &config, 1000, BuildEvent::Succeeded) {
        BuildAction::Finish(Err(BuildFailure::Io(msg))) => assert_eq!(msg, "corrupt"),
        other => panic!("unexpected {other:?}"),
    }
}

#[test]
fn bounded_wait_gives_up_after_the_last_poll() {
    let config = new_build_config(&settings(true), &package(), "/out");
    let (driver, _) = create_driver(BuildDriverType::Bare, &config, &DriverConfig::default(), 0, 0);
    let mut run = BuildRun::new(false, Some(2));
    for _ in 0..7 {
        run.step(&driver, &config, 0, BuildEvent::Succeeded);
    }
    assert!(matches!(run.step(&driver, &config, 0, BuildEvent::Succeeded), BuildAction::ReadAttachCount));
    for _ in 0..2 {
        assert!(matches!(run.step(&driver, &config, 0, BuildEvent::AttachCount(1)), BuildAction::Wait));
        assert!(matches!(run.step(&driver, &config, 0, BuildEvent::Succeeded), BuildAction::ReadAttachCount));
    }
    assert!(matches!(run.step(&driver, &config, 0, BuildEvent::AttachCount(1)), BuildAction::Cleanup(None)));
    assert!(matches!(
        run.step(&driver, &config, 0, BuildEvent::Succeeded),
        BuildAction::Finish(Err(BuildFailure::AttachWaitTimedOut))
    ));
}
