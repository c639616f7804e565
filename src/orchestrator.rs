//! The build sequence: prepare the build root, persist the metadata, install the
//! build dependencies, build the package, collect the artifacts, and release the
//! backend once nobody is attached any more; on failure, offer a shell first.
//!
//! The sequence is a state machine. Each call of [`BuildRun::step`] takes what
//! happened to the previous action and answers with the next one; the caller
//! carries the actions out (files, processes, the metadata lock, waiting).
use vstd::prelude::*;

use crate::common::{
    BuildConfig, BuildDriver, BuildMetadata, CommandPlan, ExecutionError, Invocation,
    PackageDescription, strs_view,
};
use crate::settings::Config;
use crate::driver::Driver;
use crate::text::{
    components_below, join_path, lemma_below_directory, lemma_trailing_separator, path_join,
    same_text,
};

verus! {

/// The distribution that packages are built for.
pub const DISTRO: &'static str = "debian";

/// The release of [`DISTRO`] that packages are built for.
pub const DISTRO_VERSION: &'static str = "trixie";

/// How many kinds of artifact are collected.
pub const ARTIFACT_KINDS: usize = 4;

/// Installs the package's build dependencies (run as root).
pub open spec fn install_deps_cmd() -> Seq<Seq<char>> {
    seq!["apt-get"@, "-y"@, "build-dep"@, "."@]
}

/// Builds the binary packages, unsigned and without cleaning first.
pub open spec fn build_package_cmd() -> Seq<Seq<char>> {
    seq!["dpkg-buildpackage"@, "-us"@, "-uc"@, "-ui"@, "-nc"@, "-b"@]
}

/// The file-name patterns of the artifacts: binary packages, change manifests,
/// build-info files and source-control files.
pub open spec fn artifact_pattern(i: int) -> Seq<char> {
    if i == 0 {
        "*.deb"@
    } else if i == 1 {
        "*.changes"@
    } else if i == 2 {
        "*.buildinfo"@
    } else {
        "*.dsc"@
    }
}

/// The `i`-th artifact pattern.
pub fn artifact_pattern_text(i: usize) -> (r: &'static str)
    requires
        i < ARTIFACT_KINDS,
    ensures
        r@ == artifact_pattern(i as int),
{
    if i == 0 {
        "*.deb"
    } else if i == 1 {
        "*.changes"
    } else if i == 2 {
        "*.buildinfo"
    } else {
        "*.dsc"
    }
}

/// Whether a directory entry of this name is left out when the source tree is copied
/// into the build root: the metadata directories of version-control systems.
pub open spec fn skipped_when_copying(name: Seq<char>) -> bool {
    name == ".git"@ || name == ".hg"@ || name == ".svn"@ || name == ".bzr"@
}

pub fn is_skipped_when_copying(name: &str) -> (r: bool)
    ensures
        r == skipped_when_copying(name@),
{
    proof {
        reveal_strlit(".git");
        reveal_strlit(".hg");
        reveal_strlit(".svn");
        reveal_strlit(".bzr");
    }
    same_text(name, ".git") || same_text(name, ".hg") || same_text(name, ".svn") || same_text(
        name,
        ".bzr",
    )
}

/// `<name>-<version>`, and the build root `<temp build dir>/<name>-<version>`.
pub fn get_build_root_and_identifier(config: &Config, package: &PackageDescription) -> (r: (
    String,
    String,
))
    ensures
        r.0@ == package.name@ + "-"@ + package.version@,
        r.1@ == path_join(config.temp_build_dir@, r.0@),
        r.1@.len() > 0,
{
    let mut id = package.name.clone();
    id.append("-");
    id.append(package.version.as_str());
    proof {
        reveal_strlit("-");
    }
    let root = join_path(config.temp_build_dir.as_str(), id.as_str());
    (id, root)
}

/// The configuration of a fresh build of `package`, whose artifacts go to `output_dir`.
pub fn new_build_config(config: &Config, package: &PackageDescription, output_dir: &str) -> (r:
    BuildConfig)
    ensures
        r.package_identifier@ == package.name@ + "-"@ + package.version@,
        r.build_root_dir@ == path_join(config.temp_build_dir@, r.package_identifier@),
        r.build_root_dir@.len() > 0,
        r.source_dir == package.source_dir,
        r.output_dir@ == output_dir@,
        r.distro@ == DISTRO@,
        r.distro_version@ == DISTRO_VERSION@,
        r.dry_run == config.dry_run,
        !r.sign_package,
{
    let (package_identifier, build_root_dir) = get_build_root_and_identifier(config, package);
    BuildConfig {
        package_identifier,
        build_root_dir,
        source_dir: package.source_dir.clone(),
        output_dir: String::from_str(output_dir),
        dry_run: config.dry_run,
        distro_version: String::from_str(DISTRO_VERSION),
        distro: String::from_str(DISTRO),
        sign_package: false,
    }
}

/// The source build directory lies inside a non-empty build root.
proof fn lemma_source_dir_in_root(c: BuildConfig)
    requires
        c.build_root_dir@.len() > 0,
    ensures
        components_below(c.build_root_dir@, c.spec_source_dir()) is Some,
{
    reveal_strlit("work");
    let root = c.build_root_dir@;
    let src = c.spec_source_dir();
    let tail = "work"@ + seq!['/'] + c.package_identifier@;
    if root.last() == '/' {
        assert(src =~= root + tail);
        lemma_below_directory(root, tail);
    } else {
        let q = root + seq!['/'];
        assert(src =~= q + tail);
        lemma_below_directory(q, tail);
        lemma_trailing_separator(root);
    }
}

/// Where a build is in its sequence.
#[derive(Debug, Clone, Copy, PartialEq, Eq, Structural)]
pub enum BuildPhase {
    /// Nothing done yet.
    Start,
    /// The metadata document is being written.
    Persisting,
    /// The build dependencies are being installed.
    Installing,
    /// The package is being built.
    Packaging,
    /// The artifacts of the given kind are being collected.
    Collecting(usize),
    /// An interactive shell into the failed build is open.
    Recovering,
    /// The attach counter is being read.
    Draining,
    /// Waiting before the attach counter is read again.
    Waiting,
    /// The backend's resources are being released.
    CleaningUp,
    /// The outcome has been reported.
    Finished,
}

/// Why a build failed.
#[derive(Debug, Clone, PartialEq, Eq)]
pub enum BuildFailure {
    /// A command failed or could not be run.
    Execution(ExecutionError),
    /// A file operation failed; the text says which and why.
    Io(String),
    /// Signing was asked for, which is not supported.
    SigningUnsupported,
    /// Shells were still attached after the largest number of waits.
    AttachWaitTimedOut,
}

impl BuildFailure {
    /// An equal failure.
    pub fn duplicate(&self) -> (r: Self)
        ensures
            r == *self,
    {
        match self {
            BuildFailure::Execution(e) => BuildFailure::Execution(e.duplicate()),
            BuildFailure::Io(m) => BuildFailure::Io(m.clone()),
            BuildFailure::SigningUnsupported => BuildFailure::SigningUnsupported,
            BuildFailure::AttachWaitTimedOut => BuildFailure::AttachWaitTimedOut,
        }
    }
}

/// What became of the previous action.
#[derive(Debug, Clone, PartialEq, Eq)]
pub enum BuildEvent {
    /// It was carried out.
    Succeeded,
    /// The command it ran failed.
    CommandFailed(ExecutionError),
    /// A file operation failed.
    IoFailed(String),
    /// The attach counter was read and holds this value.
    AttachCount(u64),
}

/// The next thing the caller must do.
#[derive(Debug)]
pub enum BuildAction {
    /// Write this document as the build root's metadata, under its lock.
    PersistMetadata(BuildMetadata),
    /// Run a build command, reporting failure by its exit status.
    Run(CommandPlan),
    /// Copy the regular files of `from_dir` whose names match `pattern` into `to_dir`.
    CollectArtifacts { from_dir: String, pattern: String, to_dir: String },
    /// Open an interactive shell into the failed build; its outcome is only reported.
    OpenShell(CommandPlan),
    /// Read the attach counter of the metadata document, under its lock.
    ReadAttachCount,
    /// Wait a short fixed interval.
    Wait,
    /// Release the backend's resources (nothing to do for `None`); failures are ignored.
    Cleanup(Option<Invocation>),
    /// Report the build's outcome; the sequence is over.
    Finish(Result<(), BuildFailure>),
}

/// The failure an event reports, if any.
pub open spec fn failure_of(e: BuildEvent) -> Option<BuildFailure> {
    match e {
        BuildEvent::CommandFailed(x) => Some(BuildFailure::Execution(x)),
        BuildEvent::IoFailed(m) => Some(BuildFailure::Io(m)),
        _ => None,
    }
}

/// The phases in which build work is in progress, and a failure leads to recovery.
pub open spec fn is_work(p: BuildPhase) -> bool {
    match p {
        BuildPhase::Persisting | BuildPhase::Installing | BuildPhase::Packaging
        | BuildPhase::Collecting(_) => true,
        _ => false,
    }
}

/// The reported outcome for a recorded failure.
pub open spec fn outcome_of(f: Option<BuildFailure>) -> Result<(), BuildFailure> {
    match f {
        Some(x) => Err(x),
        None => Ok(()),
    }
}

/// One build in progress.
pub struct BuildRun {
    phase: BuildPhase,
    interactive: bool,
    failure: Option<BuildFailure>,
    max_waits: Option<u64>,
    waits: u64,
}

impl BuildRun {
    pub closed spec fn spec_phase(&self) -> BuildPhase {
        self.phase
    }

    /// Whether an operator at a terminal can be offered a shell after a failure.
    pub closed spec fn spec_interactive(&self) -> bool {
        self.interactive
    }

    /// The first failure of the build, if any.
    pub closed spec fn spec_failure(&self) -> Option<BuildFailure> {
        self.failure
    }

    /// How many waits for attached shells are allowed; `None` for no bound.
    pub closed spec fn spec_max_waits(&self) -> Option<u64> {
        self.max_waits
    }

    /// How many waits for attached shells there have been, when they are bounded.
    pub closed spec fn spec_waits(&self) -> u64 {
        self.waits
    }

    /// Whether no more waits are allowed.
    pub open spec fn spec_waited_out(&self) -> bool {
        self.spec_max_waits() matches Some(m) && self.spec_waits() >= m
    }

    /// The action that collects the `i`-th kind of artifact from the parent of the
    /// source build directory into the output directory.
    pub open spec fn collect_matches(r: BuildAction, config: BuildConfig, i: int) -> bool {
        &&& r is CollectArtifacts
        &&& r->from_dir@ == path_join(config.spec_source_dir(), ".."@)
        &&& r->pattern@ == artifact_pattern(i)
        &&& r->to_dir@ == config.output_dir@
    }

    /// After failure `f`: a shell into the build if an operator is present, then
    /// (or else at once) the wait for attached processes.
    pub open spec fn recovery_matches(
        s: BuildRun,
        driver: Driver,
        f: BuildFailure,
        r: BuildAction,
        s2: BuildRun,
    ) -> bool {
        &&& s2.spec_failure() == Some(f)
        &&& if s.spec_interactive() {
            &&& s2.spec_phase() == BuildPhase::Recovering
            &&& (r matches BuildAction::OpenShell(p) && driver.shell_matches(Ok(p)))
        } else {
            s2.spec_phase() == BuildPhase::Draining && r is ReadAttachCount
        }
    }

    /// One step of the build: from state `s`, after `e`, the action `r` and state `s2`.
    pub open spec fn step_matches(
        s: BuildRun,
        driver: Driver,
        config: BuildConfig,
        caller_uid: u32,
        e: BuildEvent,
        r: BuildAction,
        s2: BuildRun,
    ) -> bool {
        &&& s2.spec_interactive() == s.spec_interactive()
        &&& s2.spec_max_waits() == s.spec_max_waits()
        &&& s.spec_phase() != BuildPhase::Draining ==> s2.spec_waits() == s.spec_waits()
        &&& if is_work(s.spec_phase()) && failure_of(e) is Some {
            Self::recovery_matches(s, driver, failure_of(e)->Some_0, r, s2)
        } else {
            match s.spec_phase() {
                BuildPhase::Start => {
                    &&& s2.spec_phase() == BuildPhase::Persisting
                    &&& s2.spec_failure() == s.spec_failure()
                    &&& (r matches BuildAction::PersistMetadata(m) && m.driver == driver.spec_kind()
                        && m.config == config && m.num_processes_attached == 0
                        && driver.metadata_matches(m.driver_metadata))
                },
                BuildPhase::Persisting => {
                    &&& s2.spec_phase() == BuildPhase::Installing
                    &&& s2.spec_failure() == s.spec_failure()
                    &&& (r matches BuildAction::Run(p) && driver.run_command_matches(
                        install_deps_cmd(),
                        config.spec_source_dir(),
                        true,
                        caller_uid,
                        Ok(p),
                    ))
                },
                BuildPhase::Installing => {
                    &&& s2.spec_phase() == BuildPhase::Packaging
                    &&& s2.spec_failure() == s.spec_failure()
                    &&& (r matches BuildAction::Run(p) && driver.run_command_matches(
                        build_package_cmd(),
                        config.spec_source_dir(),
                        false,
                        caller_uid,
                        Ok(p),
                    ))
                },
                BuildPhase::Packaging => if config.sign_package {
                    Self::recovery_matches(s, driver, BuildFailure::SigningUnsupported, r, s2)
                } else {
                    &&& s2.spec_phase() == BuildPhase::Collecting(0)
                    &&& s2.spec_failure() == s.spec_failure()
                    &&& Self::collect_matches(r, config, 0)
                },
                BuildPhase::Collecting(i) => {
                    &&& s2.spec_failure() == s.spec_failure()
                    &&& if i + 1 < ARTIFACT_KINDS {
                        &&& s2.spec_phase() == BuildPhase::Collecting((i + 1) as usize)
                        &&& Self::collect_matches(r, config, i + 1)
                    } else {
                        s2.spec_phase() == BuildPhase::Draining && r is ReadAttachCount
                    }
                },
                BuildPhase::Recovering | BuildPhase::Waiting => {
                    &&& s2.spec_phase() == BuildPhase::Draining
                    &&& s2.spec_failure() == s.spec_failure()
                    &&& r is ReadAttachCount
                },
                BuildPhase::Draining => if failure_of(e) is Some || e == BuildEvent::AttachCount(0)
                    || s.spec_waited_out() {
                    &&& s2.spec_phase() == BuildPhase::CleaningUp
                    &&& (r matches BuildAction::Cleanup(c) && driver.cleanup_matches(c))
                    &&& s2.spec_waits() == s.spec_waits()
                    &&& s2.spec_failure() == if s.spec_failure() is Some {
                        s.spec_failure()
                    } else if failure_of(e) is Some {
                        failure_of(e)
                    } else if e == BuildEvent::AttachCount(0) {
                        None
                    } else {
                        Some(BuildFailure::AttachWaitTimedOut)
                    }
                } else {
                    &&& s2.spec_phase() == BuildPhase::Waiting
                    &&& r is Wait
                    &&& s2.spec_failure() == s.spec_failure()
                    &&& s2.spec_waits() == if s.spec_max_waits() is Some {
                        (s.spec_waits() + 1) as u64
                    } else {
                        s.spec_waits()
                    }
                },
                BuildPhase::CleaningUp | BuildPhase::Finished => {
                    &&& s2.spec_phase() == BuildPhase::Finished
                    &&& s2.spec_failure() == s.spec_failure()
                    &&& (r matches BuildAction::Finish(o) && o == outcome_of(s.spec_failure()))
                },
            }
        }
    }

    /// A build that has not started; `interactive` says whether an operator is at a
    /// terminal, and `max_waits` how often the finished build waits for attached shells
    /// before it gives up and releases its backend (`None`: as often as it takes).
    pub fn new(interactive: bool, max_waits: Option<u64>) -> (r: Self)
        ensures
            r.spec_phase() == BuildPhase::Start,
            r.spec_interactive() == interactive,
            r.spec_failure() is None,
            r.spec_max_waits() == max_waits,
            r.spec_waits() == 0,
    {
        BuildRun { phase: BuildPhase::Start, interactive, failure: None, max_waits, waits: 0 }
    }

    pub fn phase(&self) -> (r: BuildPhase)
        ensures
            r == self.spec_phase(),
    {
        self.phase
    }

    fn recover(&mut self, driver: &Driver, f: BuildFailure) -> (r: BuildAction)
        requires
            driver.spec_config().build_root_dir@.len() > 0,
        ensures
            Self::recovery_matches(*old(self), *driver, f, r, *final(self)),
            final(self).spec_interactive() == old(self).spec_interactive(),
            final(self).spec_max_waits() == old(self).spec_max_waits(),
            final(self).spec_waits() == old(self).spec_waits(),
    {
        self.failure = Some(f);
        if self.interactive {
            match driver.drop_into_shell() {
                Ok(p) => {
                    self.phase = BuildPhase::Recovering;
                    BuildAction::OpenShell(p)
                },
                Err(_) => {
                    self.phase = BuildPhase::Draining;
                    BuildAction::ReadAttachCount
                },
            }
        } else {
            self.phase = BuildPhase::Draining;
            BuildAction::ReadAttachCount
        }
    }

    /// Takes what became of the previous action (anything, for the first step) and
    /// answers with the next action. `config` is the build's configuration and
    /// `caller_uid` the user id of the calling process.
    pub fn step(
        &mut self,
        driver: &Driver,
        config: &BuildConfig,
        caller_uid: u32,
        event: BuildEvent,
    ) -> (r: BuildAction)
        requires
            driver.spec_config() == *config,
            config.build_root_dir@.len() > 0,
        ensures
            Self::step_matches(*old(self), *driver, *config, caller_uid, event, r, *final(self)),
    {
        proof {
            lemma_source_dir_in_root(*config);
        }
        let drained = match &event {
            BuildEvent::AttachCount(n) => *n == 0,
            _ => false,
        };
        let failure = match event {
            BuildEvent::CommandFailed(x) => Some(BuildFailure::Execution(x)),
            BuildEvent::IoFailed(m) => Some(BuildFailure::Io(m)),
            _ => None,
        };
        let working = match self.phase {
            BuildPhase::Persisting | BuildPhase::Installing | BuildPhase::Packaging
            | BuildPhase::Collecting(_) => true,
            _ => false,
        };
        if working && failure.is_some() {
            return self.recover(driver, failure.unwrap());
        }
        match self.phase {
            BuildPhase::Start => {
                self.phase = BuildPhase::Persisting;
                BuildAction::PersistMetadata(
                    BuildMetadata::new(
                        driver.driver_type(),
                        config.duplicate(),
                        driver.get_build_metadata(),
                    ),
                )
            },
            BuildPhase::Persisting => {
                let cmd: [&str; 4] = ["apt-get", "-y", "build-dep", "."];
                assert(strs_view(cmd@) =~= install_deps_cmd());
                let source_dir = config.build_source_dir();
                match driver.run_command(&cmd, source_dir.as_str(), true, caller_uid) {
                    Ok(p) => {
                        self.phase = BuildPhase::Installing;
                        BuildAction::Run(p)
                    },
                    Err(e) => self.recover(driver, BuildFailure::Execution(e)),
                }
            },
            BuildPhase::Installing => {
                let cmd: [&str; 6] = ["dpkg-buildpackage", "-us", "-uc", "-ui", "-nc", "-b"];
                assert(strs_view(cmd@) =~= build_package_cmd());
                let source_dir = config.build_source_dir();
                match driver.run_command(&cmd, source_dir.as_str(), false, caller_uid) {
                    Ok(p) => {
                        self.phase = BuildPhase::Packaging;
                        BuildAction::Run(p)
                    },
                    Err(e) => self.recover(driver, BuildFailure::Execution(e)),
                }
            },
            BuildPhase::Packaging => {
                if config.sign_package {
                    self.recover(driver, BuildFailure::SigningUnsupported)
                } else {
                    self.phase = BuildPhase::Collecting(0);
                    Self::collect(config, 0)
                }
            },
            BuildPhase::Collecting(i) => {
                if i < ARTIFACT_KINDS - 1 {
                    self.phase = BuildPhase::Collecting(i + 1);
                    Self::collect(config, i + 1)
                } else {
                    self.phase = BuildPhase::Draining;
                    BuildAction::ReadAttachCount
                }
            },
            BuildPhase::Recovering | BuildPhase::Waiting => {
                self.phase = BuildPhase::Draining;
                BuildAction::ReadAttachCount
            },
            BuildPhase::Draining => {
                let waited_out = match self.max_waits {
                    Some(m) => self.waits >= m,
                    None => false,
                };
                if failure.is_some() || drained || waited_out {
                    if self.failure.is_none() {
                        if failure.is_some() {
                            self.failure = failure;
                        } else if !drained {
                            self.failure = Some(BuildFailure::AttachWaitTimedOut);
                        }
                    }
                    self.phase = BuildPhase::CleaningUp;
                    BuildAction::Cleanup(driver.cleanup())
                } else {
                    if self.max_waits.is_some() {
                        self.waits = self.waits + 1;
                    }
                    self.phase = BuildPhase::Waiting;
                    BuildAction::Wait
                }
            },
            BuildPhase::CleaningUp | BuildPhase::Finished => {
                self.phase = BuildPhase::Finished;
                match &self.failure {
                    Some(f) => BuildAction::Finish(Err(f.duplicate())),
                    None => BuildAction::Finish(Ok(())),
                }
            },
        }
    }

    fn collect(config: &BuildConfig, i: usize) -> (r: BuildAction)
        requires
            i < ARTIFACT_KINDS,
        ensures
            Self::collect_matches(r, *config, i as int),
    {
        let source_dir = config.build_source_dir();
        BuildAction::CollectArtifacts {
            from_dir: join_path(source_dir.as_str(), ".."),
            pattern: String::from_str(artifact_pattern_text(i)),
            to_dir: config.output_dir.clone(),
        }
    }
}

/// How many of `actions` open a shell.
pub open spec fn shells_opened(actions: Seq<BuildAction>) -> nat
    decreases actions.len(),
{
    if actions.len() == 0 {
        0
    } else {
        shells_opened(actions.drop_last()) + if actions.last() is OpenShell {
            1nat
        } else {
            0nat
        }
    }
}

/// How far along its sequence a build is; it never goes back.
pub open spec fn phase_rank(p: BuildPhase) -> nat {
    match p {
        BuildPhase::Start => 0,
        BuildPhase::Persisting => 1,
        BuildPhase::Installing => 2,
        BuildPhase::Packaging => 3,
        BuildPhase::Collecting(_) => 4,
        BuildPhase::Recovering => 5,
        BuildPhase::Draining | BuildPhase::Waiting => 6,
        BuildPhase::CleaningUp => 7,
        BuildPhase::Finished => 8,
    }
}

/// `states`, `events` and `actions` are a run of [`BuildRun::step`]: step `i` took
/// `states[i]` and `events[i]` to `actions[i]` and `states[i + 1]`.
pub open spec fn is_build_run(
    driver: Driver,
    config: BuildConfig,
    caller_uid: u32,
    states: Seq<BuildRun>,
    events: Seq<BuildEvent>,
    actions: Seq<BuildAction>,
) -> bool {
    &&& states.len() == events.len() + 1
    &&& actions.len() == events.len()
    &&& forall|i: int|
        #![trigger events[i]]
        0 <= i < events.len() ==> BuildRun::step_matches(
            states[i],
            driver,
            config,
            caller_uid,
            events[i],
            actions[i],
            states[i + 1],
        )
}

proof fn lemma_step_shell(
    s: BuildRun,
    driver: Driver,
    config: BuildConfig,
    caller_uid: u32,
    e: BuildEvent,
    r: BuildAction,
    s2: BuildRun,
)
    requires
        BuildRun::step_matches(s, driver, config, caller_uid, e, r, s2),
    ensures
        s2.spec_interactive() == s.spec_interactive(),
        phase_rank(s2.spec_phase()) >= phase_rank(s.spec_phase()),
        r is OpenShell ==> phase_rank(s.spec_phase()) < 5 && phase_rank(s2.spec_phase()) == 5
            && s.spec_interactive(),
{
}

proof fn lemma_shells_in_prefix(
    driver: Driver,
    config: BuildConfig,
    caller_uid: u32,
    states: Seq<BuildRun>,
    events: Seq<BuildEvent>,
    actions: Seq<BuildAction>,
    k: int,
)
    requires
        is_build_run(driver, config, caller_uid, states, events, actions),
        0 <= k <= events.len(),
    ensures
        shells_opened(actions.subrange(0, k)) <= 1,
        phase_rank(states[k].spec_phase()) < 5 ==> shells_opened(actions.subrange(0, k)) == 0,
        states[k].spec_interactive() == states[0].spec_interactive(),
        !states[0].spec_interactive() ==> shells_opened(actions.subrange(0, k)) == 0,
    decreases k,
{
    if k > 0 {
        lemma_shells_in_prefix(driver, config, caller_uid, states, events, actions, k - 1);
        assert(BuildRun::step_matches(
            states[k - 1],
            driver,
            config,
            caller_uid,
            events[k - 1],
            actions[k - 1],
            states[k],
        ));
        lemma_step_shell(
            states[k - 1],
            driver,
            config,
            caller_uid,
            events[k - 1],
            actions[k - 1],
            states[k],
        );
        assert(actions.subrange(0, k).drop_last() =~= actions.subrange(0, k - 1));
    }
}

proof fn lemma_shells_monotone(actions: Seq<BuildAction>, j: int, k: int)
    requires
        0 <= j <= k <= actions.len(),
    ensures
        shells_opened(actions.subrange(0, j)) <= shells_opened(actions.subrange(0, k)),
    decreases k - j,
{
    if j < k {
        lemma_shells_monotone(actions, j, k - 1);
        assert(actions.subrange(0, k).drop_last() =~= actions.subrange(0, k - 1));
    }
}

/// Over any run of the build sequence, an interactive shell is opened at most once,
/// and never when no operator is at a terminal. When the metadata is persisted and
/// the dependency-install step then fails, a run with an operator opens exactly one.
pub proof fn lemma_recovery_shell_at_most_once(
    driver: Driver,
    config: BuildConfig,
    caller_uid: u32,
    states: Seq<BuildRun>,
    events: Seq<BuildEvent>,
    actions: Seq<BuildAction>,
)
    requires
        is_build_run(driver, config, caller_uid, states, events, actions),
    ensures
        shells_opened(actions) <= 1,
        !states[0].spec_interactive() ==> shells_opened(actions) == 0,
        states[0].spec_phase() == BuildPhase::Start && states[0].spec_interactive() && events.len()
            >= 3 && failure_of(events[1]) is None && failure_of(events[2]) is Some
            ==> shells_opened(actions) == 1,
{
    let n = events.len() as int;
    lemma_shells_in_prefix(driver, config, caller_uid, states, events, actions, n);
    assert(actions.subrange(0, n) =~= actions);
    if states[0].spec_phase() == BuildPhase::Start && states[0].spec_interactive() && n >= 3
        && failure_of(events[1]) is None && failure_of(events[2]) is Some {
        assert(BuildRun::step_matches(
            states[0],
            driver,
            config,
            caller_uid,
            events[0],
            actions[0],
            states[1],
        ));
        assert(BuildRun::step_matches(
            states[1],
            driver,
            config,
            caller_uid,
            events[1],
            actions[1],
            states[2],
        ));
        assert(BuildRun::step_matches(
            states[2],
            driver,
            config,
            caller_uid,
            events[2],
            actions[2],
            states[3],
        ));
        lemma_shells_in_prefix(driver, config, caller_uid, states, events, actions, 2);
        assert(actions.subrange(0, 3).drop_last() =~= actions.subrange(0, 2));
        lemma_shells_monotone(actions, 3, n);
    }
}

} // verus!
