//! The values shared by every part of a build: its configuration, the facts a
//! driver records about itself, and the metadata document of a build root.
use vstd::prelude::*;

use crate::text::{join_path, path_join, same_text};

verus! {

/// Which execution backend runs a build.
#[derive(Debug, Clone, Copy, PartialEq, Eq, Structural, PartialOrd, Ord, Hash)]
pub enum BuildDriverType {
    Docker,
    Bare,
}

/// A package as handed over by the changelog reader: name, version and source tree.
#[derive(Debug, Clone)]
pub struct PackageDescription {
    pub name: String,
    pub version: String,
    pub source_dir: String,
}

/// The character sequences of a list of strings.
pub open spec fn strings_view(v: Seq<String>) -> Seq<Seq<char>> {
    v.map_values(|s: String| s@)
}

/// The character sequences of a list of string slices.
pub open spec fn strs_view(v: Seq<&str>) -> Seq<Seq<char>> {
    v.map_values(|s: &str| s@)
}

/// Appends a copy of `s`.
pub fn push_text(v: &mut Vec<String>, s: &str)
    ensures
        strings_view(final(v)@) == strings_view(old(v)@).push(s@),
{
    v.push(String::from_str(s));
    assert(strings_view(v@) =~= strings_view(old(v)@).push(s@));
}

/// Appends a copy of each of `items`, in order.
pub fn push_all(v: &mut Vec<String>, items: &[&str])
    ensures
        strings_view(final(v)@) == strings_view(old(v)@) + strs_view(items@),
{
    let mut i: usize = 0;
    while i < items.len()
        invariant
            i <= items@.len(),
            strings_view(v@) == strings_view(old(v)@) + strs_view(items@.subrange(0, i as int)),
        decreases items@.len() - i,
    {
        push_text(v, items[i]);
        assert(strs_view(items@.subrange(0, i + 1)) =~= strs_view(items@.subrange(0, i as int)).push(
            items@[i as int]@,
        ));
        i += 1;
    }
    assert(items@.subrange(0, items@.len() as int) =~= items@);
}

/// Why the metadata of a build root could not be used.
#[derive(Debug, Clone, PartialEq, Eq)]
pub enum MetadataError {
    /// The build root holds no metadata document.
    Missing,
    /// The document could not be read or parsed.
    Corrupt { detail: String },
    /// A container build whose document names no container.
    MissingContainerName,
}

/// Why a command could not be run, or how it ended badly.
#[derive(Debug, Clone, PartialEq, Eq)]
pub enum ExecutionError {
    /// The working directory lies outside the build root, so the backend cannot reach it.
    PathOutsideBuildRoot { path: String },
    /// There was no program to run.
    EmptyCommand,
    /// The command ran and ended with a non-zero status, or was killed by a signal (`None`).
    Failed { code: Option<i32> },
}

impl ExecutionError {
    /// An equal error.
    pub fn duplicate(&self) -> (r: Self)
        ensures
            r == *self,
    {
        match self {
            ExecutionError::PathOutsideBuildRoot { path } => ExecutionError::PathOutsideBuildRoot {
                path: path.clone(),
            },
            ExecutionError::EmptyCommand => ExecutionError::EmptyCommand,
            ExecutionError::Failed { code } => ExecutionError::Failed { code: *code },
        }
    }
}

/// A process to start and wait for, with the caller's terminal and output streams.
#[derive(Debug, Clone)]
pub struct Invocation {
    /// Program followed by its arguments.
    pub argv: Vec<String>,
    /// Working directory; `None` keeps the caller's.
    pub cwd: Option<String>,
    /// Whether a non-zero exit status is a failure of the operation.
    pub check_status: bool,
}

/// What a driver asks its caller to do for one operation.
#[derive(Debug, Clone)]
pub enum CommandPlan {
    /// Dry run: show this command line and report success without running anything.
    Skip(Vec<String>),
    /// Start this process and wait for it.
    Run(Invocation),
}

/// How an operation ended, given the exit code of the process it ran (`None` when a
/// signal ended it). Only a zero code succeeds, unless the status is not checked.
pub fn exit_outcome(check_status: bool, code: Option<i32>) -> (r: Result<(), ExecutionError>)
    ensures
        r is Ok <==> (!check_status || code == Some(0i32)),
        r matches Err(e) ==> e == (ExecutionError::Failed { code }),
{
    if !check_status {
        return Ok(());
    }
    match code {
        Some(0) => Ok(()),
        _ => Err(ExecutionError::Failed { code }),
    }
}

/// The map that string-keyed pairs denote when later pairs override earlier ones.
pub open spec fn pairs_map(s: Seq<(Seq<char>, Seq<char>)>) -> Map<Seq<char>, Seq<char>>
    decreases s.len(),
{
    if s.len() == 0 {
        Map::empty()
    } else {
        pairs_map(s.drop_last()).insert(s.last().0, s.last().1)
    }
}

/// Driver-specific facts (such as a container name) recorded so that another
/// process can rebuild an equivalent driver. Later entries override earlier ones.
#[derive(Debug, Clone)]
pub struct DriverSpecificBuildMetadata {
    entries: Vec<(String, String)>,
}

impl View for DriverSpecificBuildMetadata {
    type V = Map<Seq<char>, Seq<char>>;

    open spec fn view(&self) -> Map<Seq<char>, Seq<char>> {
        pairs_map(self.pair_views())
    }
}

proof fn lemma_pairs_map_last_wins(s: Seq<(Seq<char>, Seq<char>)>, j: int)
    requires
        0 <= j < s.len(),
        forall|i: int| j < i < s.len() ==> s[i].0 != s[j].0,
    ensures
        pairs_map(s).contains_key(s[j].0),
        pairs_map(s)[s[j].0] == s[j].1,
    decreases s.len(),
{
    if j < s.len() - 1 {
        lemma_pairs_map_last_wins(s.drop_last(), j);
    }
}

proof fn lemma_pairs_map_absent(s: Seq<(Seq<char>, Seq<char>)>, k: Seq<char>)
    requires
        forall|i: int| 0 <= i < s.len() ==> s[i].0 != k,
    ensures
        !pairs_map(s).contains_key(k),
    decreases s.len(),
{
    if s.len() > 0 {
        lemma_pairs_map_absent(s.drop_last(), k);
    }
}

impl DriverSpecificBuildMetadata {
    /// The entries as pairs of character sequences, in insertion order.
    pub closed spec fn pair_views(&self) -> Seq<(Seq<char>, Seq<char>)> {
        self.entries@.map_values(|p: (String, String)| (p.0@, p.1@))
    }

    /// No entries at all.
    pub fn new() -> (r: Self)
        ensures
            r@ == Map::<Seq<char>, Seq<char>>::empty(),
    {
        let r = DriverSpecificBuildMetadata { entries: Vec::new() };
        assert(r.pair_views() =~= Seq::empty());
        r
    }

    /// Records `value` under `key`, replacing what was recorded there before.
    pub fn insert(&mut self, key: String, value: String)
        ensures
            final(self)@ == old(self)@.insert(key@, value@),
    {
        self.entries.push((key, value));
        assert(self.pair_views().drop_last() =~= old(self).pair_views());
    }

    /// The value recorded under `key`, if any.
    pub fn get(&self, key: &str) -> (r: Option<String>)
        ensures
            r is Some <==> self@.contains_key(key@),
            r matches Some(v) ==> v@ == self@[key@],
    {
        let n = self.entries.len();
        let mut i: usize = n;
        while i > 0
            invariant
                i <= n,
                n == self.entries@.len(),
                forall|j: int| i <= j < n ==> self.pair_views()[j].0 != key@,
            decreases i,
        {
            i -= 1;
            if same_text(self.entries[i].0.as_str(), key) {
                proof {
                    lemma_pairs_map_last_wins(self.pair_views(), i as int);
                }
                return Some(self.entries[i].1.clone());
            }
        }
        proof {
            lemma_pairs_map_absent(self.pair_views(), key@);
        }
        None
    }

    /// The entries in insertion order; a later entry overrides an earlier one with its key.
    pub fn pairs(&self) -> (r: &Vec<(String, String)>)
        ensures
            r@.map_values(|p: (String, String)| (p.0@, p.1@)) == self.pair_views(),
    {
        &self.entries
    }

    /// An equal value: the same entries in the same order.
    pub fn duplicate(&self) -> (r: Self)
        ensures
            r@ == self@,
    {
        let mut entries: Vec<(String, String)> = Vec::new();
        let mut i: usize = 0;
        while i < self.entries.len()
            invariant
                i <= self.entries@.len(),
                entries@.len() == i,
                forall|j: int| 0 <= j < i ==> entries@[j] == self.entries@[j],
            decreases self.entries@.len() - i,
        {
            let k = self.entries[i].0.clone();
            let v = self.entries[i].1.clone();
            entries.push((k, v));
            i += 1;
        }
        let r = DriverSpecificBuildMetadata { entries };
        assert(r.pair_views() =~= self.pair_views());
        r
    }
}

/// The metadata document of a build root: the single record from which another
/// process rebuilds the driver of a running build and learns who is attached to it.
#[derive(Debug, Clone)]
pub struct BuildMetadata {
    pub driver: BuildDriverType,
    pub config: BuildConfig,
    pub driver_metadata: DriverSpecificBuildMetadata,
    pub num_processes_attached: u64,
}

impl BuildMetadata {
    /// The document written when a build starts: nobody is attached yet.
    pub fn new(
        driver: BuildDriverType,
        config: BuildConfig,
        driver_metadata: DriverSpecificBuildMetadata,
    ) -> (r: Self)
        ensures
            r.driver == driver,
            r.config == config,
            r.driver_metadata == driver_metadata,
            r.num_processes_attached == 0,
    {
        BuildMetadata { driver, config, driver_metadata, num_processes_attached: 0 }
    }

    /// Whether `self` and `o` are the same document: same driver, configuration,
    /// driver facts and count.
    pub open spec fn same_document(&self, o: BuildMetadata) -> bool {
        &&& self.driver == o.driver
        &&& self.config == o.config
        &&& self.driver_metadata@ == o.driver_metadata@
        &&& self.num_processes_attached == o.num_processes_attached
    }

    /// The same document.
    pub fn duplicate(&self) -> (r: Self)
        ensures
            r.same_document(*self),
    {
        BuildMetadata {
            driver: self.driver,
            config: self.config.duplicate(),
            driver_metadata: self.driver_metadata.duplicate(),
            num_processes_attached: self.num_processes_attached,
        }
    }

    /// One more process holds a session into the build.
    pub fn attach(&mut self)
        requires
            old(self).num_processes_attached < u64::MAX,
        ensures
            final(self).num_processes_attached == old(self).num_processes_attached + 1,
            final(self).driver == old(self).driver,
            final(self).config == old(self).config,
            final(self).driver_metadata == old(self).driver_metadata,
    {
        self.num_processes_attached = self.num_processes_attached + 1;
    }

    /// One process left its session; the count never drops below zero.
    pub fn detach(&mut self)
        ensures
            final(self).num_processes_attached == (if old(self).num_processes_attached == 0 {
                0
            } else {
                old(self).num_processes_attached - 1
            }),
            final(self).driver == old(self).driver,
            final(self).config == old(self).config,
            final(self).driver_metadata == old(self).driver_metadata,
    {
        if self.num_processes_attached > 0 {
            self.num_processes_attached = self.num_processes_attached - 1;
        }
    }
}

/// An execution backend: how commands, shells and teardown of one build are carried
/// out. Each operation answers with what the caller must run; the caller runs it.
pub trait BuildDriver {
    /// Facts to persist so that another process can rebuild an equivalent driver.
    fn get_build_metadata(&self) -> DriverSpecificBuildMetadata;

    /// Runs `cmd` in `cwd`, with root privileges if `requires_root`. `caller_uid`
    /// is the user id of the calling process.
    fn run_command(&self, cmd: &[&str], cwd: &str, requires_root: bool, caller_uid: u32) -> Result<
        CommandPlan,
        ExecutionError,
    >;

    /// Releases what the backend holds; `None` when there is nothing to release.
    /// Its outcome is never checked.
    fn cleanup(&self) -> Option<Invocation>;

    /// An interactive shell inside the build environment.
    fn drop_into_shell(&self) -> Result<CommandPlan, ExecutionError>;

    fn driver_type(&self) -> BuildDriverType;
}

/// Everything one build needs to know: what is built, where, and for which distribution.
#[derive(Debug, Clone)]
pub struct BuildConfig {
    pub package_identifier: String,
    pub build_root_dir: String,
    pub source_dir: String,
    pub output_dir: String,
    pub dry_run: bool,
    pub distro_version: String,
    pub distro: String,
    pub sign_package: bool,
}

impl BuildConfig {
    /// `package-distro-version`: names the image and, for persistent containers, the container.
    pub open spec fn spec_build_identifier(&self) -> Seq<char> {
        self.package_identifier@ + "-"@ + self.distro@ + "-"@ + self.distro_version@
    }

    pub open spec fn spec_work_dir(&self) -> Seq<char> {
        path_join(self.build_root_dir@, "work"@)
    }

    pub open spec fn spec_temp_dir(&self) -> Seq<char> {
        path_join(self.build_root_dir@, "temp"@)
    }

    pub open spec fn spec_source_dir(&self) -> Seq<char> {
        path_join(self.spec_work_dir(), self.package_identifier@)
    }

    pub fn build_identifier(&self) -> (r: String)
        ensures
            r@ == self.spec_build_identifier(),
    {
        let mut r = self.package_identifier.clone();
        r.append("-");
        r.append(self.distro.as_str());
        r.append("-");
        r.append(self.distro_version.as_str());
        r
    }

    /// `<build root>/work`, where the source tree is copied.
    pub fn build_work_dir(&self) -> (r: String)
        ensures
            r@ == self.spec_work_dir(),
    {
        join_path(self.build_root_dir.as_str(), "work")
    }

    /// `<build root>/temp`, where the container image definition is rendered.
    pub fn build_temp_dir(&self) -> (r: String)
        ensures
            r@ == self.spec_temp_dir(),
    {
        join_path(self.build_root_dir.as_str(), "temp")
    }

    /// `<build root>/work/<package identifier>`, where the package is built.
    pub fn build_source_dir(&self) -> (r: String)
        ensures
            r@ == self.spec_source_dir(),
    {
        let work = self.build_work_dir();
        join_path(work.as_str(), self.package_identifier.as_str())
    }

    /// The directories that must exist before a build starts, in creation order:
    /// the output directory, then the work, temp and source build directories.
    pub fn required_dirs(&self) -> (r: Vec<String>)
        ensures
            r@.len() == 4,
            r@[0]@ == self.output_dir@,
            r@[1]@ == self.spec_work_dir(),
            r@[2]@ == self.spec_temp_dir(),
            r@[3]@ == self.spec_source_dir(),
    {
        let mut r: Vec<String> = Vec::new();
        r.push(self.output_dir.clone());
        r.push(self.build_work_dir());
        r.push(self.build_temp_dir());
        r.push(self.build_source_dir());
        r
    }

    /// An equal configuration.
    pub fn duplicate(&self) -> (r: Self)
        ensures
            r == *self,
    {
        BuildConfig {
            package_identifier: self.package_identifier.clone(),
            build_root_dir: self.build_root_dir.clone(),
            source_dir: self.source_dir.clone(),
            output_dir: self.output_dir.clone(),
            dry_run: self.dry_run,
            distro_version: self.distro_version.clone(),
            distro: self.distro.clone(),
            sign_package: self.sign_package,
        }
    }
}

} // verus!
