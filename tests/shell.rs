use debmagic::common::{
    BuildConfig, BuildDriverType, BuildMetadata, CommandPlan, DriverSpecificBuildMetadata,
};
use debmagic::driver::DriverConfig;
use debmagic::session::SessionOp;
use debmagic::shell::{ShellAction, ShellEvent, ShellFailure, ShellPhase, ShellSession};
use debmagic::store::{StoreAction, StoreError, StoreEvent, StorePhase, StoreTransaction, StoreUpdate};

fn config() -> BuildConfig {
    BuildConfig {
        package_identifier: "hello-1.0".to_string(),
        build_root_dir: "/tmp/debmagic/hello-1.0".to_string(),
        source_dir: "/src/hello".to_string(),
        output_dir: "/out".to_string(),
        dry_run: false,
        distro_version: "trixie".to_string(),
        distro: "debian".to_string(),
        sign_package: false,
    }
}

fn container_document() -> BuildMetadata {
    let mut dm = DriverSpecificBuildMetadata::new();
    dm.insert("container_name".to_string(), "abc".to_string());
    BuildMetadata::new(BuildDriverType::Docker, config(), dm)
}

/// Runs one store transaction against an in-memory document.
fn transact(doc: &mut BuildMetadata, update: StoreUpdate) -> Result<BuildMetadata, StoreError> {
    let mut t = StoreTransaction::new(update);
    let mut event = StoreEvent::Succeeded;
    loop {
        match t.step(event) {
            StoreAction::AcquireLock | StoreAction::ReleaseLock => event = StoreEvent::Succeeded,
            StoreAction::LoadDocument => event = StoreEvent::Loaded(doc.duplicate()),
            StoreAction::SaveDocument(d) => {
                *doc = d;
                event = StoreEvent::Succeeded;
            }
            StoreAction::Finish(r) => return r,
        }
    }
}

#[test]
fn shell_session_reaches_the_recorded_container_and_detaches_after_a_failed_shell() {
    let mut doc = container_document();
    let mut s = ShellSession::new();
    let cfg = DriverConfig::default();

    let action = s.step(&cfg, ShellEvent::Succeeded);
    assert!(matches!(action, ShellAction::Update(SessionOp::Attach)));
    let attached = transact(&mut doc, StoreUpdate::Attach).unwrap();
    assert_eq!(doc.num_processes_attached, 1);

    match s.step(&cfg, ShellEvent::Document(attached)) {
        ShellAction::OpenShell(CommandPlan::Run(inv)) => {
            assert_eq!(inv.argv[..5], ["docker", "exec", "-it", "--workdir", "/debmagic/"]);
            assert_eq!(inv.argv[5], "abc");
            assert!(!inv.check_status);
        }
        other => panic!("unexpected {other:?}"),
    }

    let action = s.step(&cfg, ShellEvent::Failed("exit status 1".to_string()));
    assert!(matches!(action, ShellAction::Update(SessionOp::Detach)));
    let detached = transact(&mut doc, StoreUpdate::Detach).unwrap();
    assert_eq!(doc.num_processes_attached, 0);

    match s.step(&cfg, ShellEvent::Document(detached)) {
        ShellAction::Finish(Err(ShellFailure::Shell(msg))) => assert_eq!(msg, "exit status 1"),
        other => panic!("unexpected {other:?}"),
    }
    assert_eq!(s.phase(), ShellPhase::Finished);
}

#[test]
fn shell_session_without_container_name_still_detaches() {
    let mut doc = BuildMetadata::new(BuildDriverType::Docker, config(), DriverSpecificBuildMetadata::new());
    let mut s = ShellSession::new();
    let cfg = DriverConfig::default();
    s.step(&cfg, ShellEvent::Succeeded);
    let attached = transact(&mut doc, StoreUpdate::Attach).unwrap();
    assert!(matches!(s.step(&cfg, ShellEvent::Document(attached)), ShellAction::Update(SessionOp::Detach)));
    let detached = transact(&mut doc, StoreUpdate::Detach).unwrap();
    assert_eq!(detached.num_processes_attached, 0);
    assert!(matches!(s.step(&cfg, ShellEvent::Document(detached)), ShellAction::Finish(Err(ShellFailure::Metadata(_)))));
}

#[test]
fn shell_session_that_cannot_attach_never_detaches() {
    let mut s = ShellSession::new();
    let cfg = DriverConfig::default();
    s.step(&cfg, ShellEvent::Succeeded);
    let action = s.step(&cfg, ShellEvent::StoreFailed(StoreError::Lock("busy".to_string())));
    assert!(matches!(action, ShellAction::Finish(Err(ShellFailure::Store(StoreError::Lock(_))))));
}

#[test]
fn store_releases_the_lock_when_the_document_is_corrupt() {
    let mut t = StoreTransaction::new(StoreUpdate::Attach);
    assert!(matches!(t.step(StoreEvent::Succeeded), StoreAction::AcquireLock));
    assert!(matches!(t.step(StoreEvent::Succeeded), StoreAction::LoadDocument));
    assert!(t.lock_held());
    assert!(matches!(t.step(StoreEvent::Failed("bad json".to_string())), StoreAction::ReleaseLock));
    assert_eq!(t.phase(), StorePhase::Releasing);
    match t.step(StoreEvent::Succeeded) {
        StoreAction::Finish(Err(StoreError::Metadata(_))) => {}
        other => panic!("unexpected {other:?}"),
    }
    assert!(!t.lock_held());
}

#[test]
fn store_releases_the_lock_when_the_write_fails() {
    let mut t = StoreTransaction::new(StoreUpdate::Detach);
    t.step(StoreEvent::Succeeded);
    t.step(StoreEvent::Succeeded);
    assert!(matches!(t.step(StoreEvent::Loaded(container_document())), StoreAction::SaveDocument(_)));
    assert!(matches!(t.step(StoreEvent::Failed("disk full".to_string())), StoreAction::ReleaseLock));
    assert!(matches!(t.step(StoreEvent::Succeeded), StoreAction::Finish(Err(StoreError::Write(_)))));
}

#[test]
fn store_creates_reads_and_refuses_overflow() {
    let mut doc = container_document();
    doc.num_processes_attached = 7;
    let created = transact(&mut doc, StoreUpdate::Create(container_document())).unwrap();
    assert_eq!(created.num_processes_attached, 0);
    assert_eq!(doc.num_processes_attached, 0);
    let read = transact(&mut doc, StoreUpdate::Read).unwrap();
    assert_eq!(read.num_processes_attached, 0);
    doc.num_processes_attached = u64::MAX;
    assert_eq!(transact(&mut doc, StoreUpdate::Attach).unwrap_err(), StoreError::CounterOverflow);
    assert_eq!(doc.num_processes_attached, u64::MAX);
}

#[test]
fn lock_failure_finishes_without_release() {
    let mut t = StoreTransaction::new(StoreUpdate::Read);
    t.step(StoreEvent::Succeeded);
    assert!(matches!(
        t.step(StoreEvent::Failed("no file".to_string())),
        StoreAction::Finish(Err(StoreError::Lock(_)))
    ));
}
