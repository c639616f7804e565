//! The closed set of backends, chosen by kind, and how one is made for a new
//! build or rebuilt from the metadata of a running one.
use vstd::prelude::*;

use crate::common::{
    BuildConfig, BuildDriver, BuildDriverType, BuildMetadata, CommandPlan,
    DriverSpecificBuildMetadata, ExecutionError, Invocation, MetadataError, strs_view,
};
use crate::driver_bare::{DriverBare, DriverBareConfig};
use crate::driver_docker::{
    CONTAINER_NAME_KEY, DockerSetup, DriverDocker, DriverDockerConfig, spec_container_path,
};

verus! {

/// The settings of every backend.
#[derive(Debug, Clone, Default)]
pub struct DriverConfig {
    pub docker: DriverDockerConfig,
    pub bare: DriverBareConfig,
}

/// A backend of either kind.
pub enum Driver {
    Bare(DriverBare),
    Docker(DriverDocker),
}

impl Driver {
    /// The configuration of the build this driver runs.
    pub open spec fn spec_config(&self) -> BuildConfig {
        match self {
            Driver::Bare(d) => d.spec_config(),
            Driver::Docker(d) => d.spec_config(),
        }
    }

    pub open spec fn metadata_matches(&self, r: DriverSpecificBuildMetadata) -> bool {
        match self {
            Driver::Bare(d) => d.metadata_matches(r),
            Driver::Docker(d) => d.metadata_matches(r),
        }
    }

    pub open spec fn run_command_matches(
        &self,
        cmd: Seq<Seq<char>>,
        cwd: Seq<char>,
        requires_root: bool,
        caller_uid: u32,
        r: Result<CommandPlan, ExecutionError>,
    ) -> bool {
        match self {
            Driver::Bare(d) => d.run_command_matches(cmd, cwd, requires_root, caller_uid, r),
            Driver::Docker(d) => d.run_command_matches(cmd, cwd, requires_root, caller_uid, r),
        }
    }

    pub open spec fn cleanup_matches(&self, r: Option<Invocation>) -> bool {
        match self {
            Driver::Bare(d) => d.cleanup_matches(r),
            Driver::Docker(d) => d.cleanup_matches(r),
        }
    }

    pub open spec fn shell_matches(&self, r: Result<CommandPlan, ExecutionError>) -> bool {
        match self {
            Driver::Bare(d) => d.shell_matches(r),
            Driver::Docker(d) => d.shell_matches(r),
        }
    }

    pub open spec fn spec_kind(&self) -> BuildDriverType {
        match self {
            Driver::Bare(_) => BuildDriverType::Bare,
            Driver::Docker(_) => BuildDriverType::Docker,
        }
    }
}

/// Makes the driver of kind `driver_type` for a new build. A container build also
/// answers with the setup to carry out before its container is acquired. `uid` and
/// `gid` are the ids of the invoking host user.
pub fn create_driver(
    driver_type: BuildDriverType,
    build_config: &BuildConfig,
    config: &DriverConfig,
    uid: u32,
    gid: u32,
) -> (r: (Driver, Option<DockerSetup>))
    ensures
        r.0.spec_kind() == driver_type,
        r.0.spec_config() == *build_config,
        match r.0 {
            Driver::Bare(_) => r.1 is None,
            Driver::Docker(d) => r.1 matches Some(s) && d.spec_driver_config() == config.docker
                && DriverDocker::setup_matches(s, *build_config, config.docker, uid, gid) && (
            config.docker.persistent ==> d.spec_container_name()
                == crate::driver_docker::spec_image_name(*build_config)),
        },
{
    match driver_type {
        BuildDriverType::Docker => {
            let (d, setup) = DriverDocker::create(build_config, &config.docker, uid, gid);
            (Driver::Docker(d), Some(setup))
        },
        BuildDriverType::Bare => (Driver::Bare(DriverBare::create(build_config, &config.bare)), None),
    }
}

/// Rebuilds the driver of a running build from its metadata document: the kind it
/// names, with the configuration it records and, for a container, the same container.
pub fn create_driver_from_build_metadata(config: &DriverConfig, metadata: &BuildMetadata) -> (r:
    Result<Driver, MetadataError>)
    ensures
        match metadata.driver {
            BuildDriverType::Bare => r matches Ok(d) && d.spec_kind() == BuildDriverType::Bare
                && d.spec_config() == metadata.config,
            BuildDriverType::Docker => if metadata.driver_metadata@.contains_key(
                CONTAINER_NAME_KEY@,
            ) {
                r matches Ok(Driver::Docker(d)) && d.spec_config() == metadata.config
                    && d.spec_container_name() == metadata.driver_metadata@[CONTAINER_NAME_KEY@]
            } else {
                r == Err::<Driver, MetadataError>(MetadataError::MissingContainerName)
            },
        },
{
    match metadata.driver {
        BuildDriverType::Docker => {
            let d = DriverDocker::from_build_metadata(&metadata.config, &config.docker, metadata)?;
            Ok(Driver::Docker(d))
        },
        BuildDriverType::Bare => Ok(
            Driver::Bare(DriverBare::from_build_metadata(&metadata.config, &config.bare, metadata)),
        ),
    }
}

/// In a dry run no driver starts a process: commands and shells are only shown and
/// reported as done, and there is nothing to release. The container driver still
/// refuses a working directory outside the build root first.
pub proof fn lemma_dry_run_never_spawns(
    d: Driver,
    cmd: Seq<Seq<char>>,
    cwd: Seq<char>,
    requires_root: bool,
    caller_uid: u32,
    run: Result<CommandPlan, ExecutionError>,
    shell: Result<CommandPlan, ExecutionError>,
    cleanup: Option<Invocation>,
)
    requires
        d.spec_config().dry_run,
        d.run_command_matches(cmd, cwd, requires_root, caller_uid, run),
        d.shell_matches(shell),
        d.cleanup_matches(cleanup),
        d is Docker ==> spec_container_path(d.spec_config(), cwd) is Some,
    ensures
        run matches Ok(CommandPlan::Skip(_)),
        shell matches Ok(CommandPlan::Skip(_)),
        cleanup is None,
{
}

impl BuildDriver for Driver {
    fn get_build_metadata(&self) -> (r: DriverSpecificBuildMetadata)
        ensures
            self.metadata_matches(r),
    {
        match self {
            Driver::Bare(d) => d.get_build_metadata(),
            Driver::Docker(d) => d.get_build_metadata(),
        }
    }

    fn run_command(&self, cmd: &[&str], cwd: &str, requires_root: bool, caller_uid: u32) -> (r:
        Result<CommandPlan, ExecutionError>)
        ensures
            self.run_command_matches(strs_view(cmd@), cwd@, requires_root, caller_uid, r),
    {
        match self {
            Driver::Bare(d) => d.run_command(cmd, cwd, requires_root, caller_uid),
            Driver::Docker(d) => d.run_command(cmd, cwd, requires_root, caller_uid),
        }
    }

    fn cleanup(&self) -> (r: Option<Invocation>)
        ensures
            self.cleanup_matches(r),
    {
        match self {
            Driver::Bare(d) => d.cleanup(),
            Driver::Docker(d) => d.cleanup(),
        }
    }

    fn drop_into_shell(&self) -> (r: Result<CommandPlan, ExecutionError>)
        ensures
            self.shell_matches(r),
    {
        match self {
            Driver::Bare(d) => d.drop_into_shell(),
            Driver::Docker(d) => d.drop_into_shell(),
        }
    }

    fn driver_type(&self) -> (r: BuildDriverType)
        ensures
            r == self.spec_kind(),
    {
        match self {
            Driver::Bare(d) => d.driver_type(),
            Driver::Docker(d) => d.driver_type(),
        }
    }
}

} // verus!
