//! The container backend: an image built for the package, one long-running
//! container with the build root mounted, and commands executed inside it.
use vstd::prelude::*;

use crate::common::{
    BuildConfig, BuildDriver, BuildDriverType, BuildMetadata, CommandPlan,
    DriverSpecificBuildMetadata, ExecutionError, Invocation, MetadataError, push_all, push_text,
    strings_view, strs_view,
};
use crate::text::{
    components_below, components_below_of, decimal, decimal_text, join_components,
    join_components_of, join_path, path_join, replace_all,
    replaced,
};

verus! {

/// Where the build root is mounted inside the container.
pub const BUILD_DIR_IN_CONTAINER: &'static str = "/debmagic";

/// The unprivileged user that builds run as inside the container.
pub const DOCKER_USER: &'static str = "user";

/// The key under which the container's name is recorded in the driver metadata.
pub const CONTAINER_NAME_KEY: &'static str = "container_name";

/// The image definition, with `{base_image}`, `{docker_user}` and `{build_dir}`
/// to be filled in. Build dependencies are installed while the image is built, from
/// the package's `debian/control` placed beside it, so that they are cached.
pub const DOCKERFILE_TEMPLATE: &'static str = r#"
FROM {base_image}
ARG USERNAME={docker_user}
ARG USER_UID=1000
ARG USER_GID=$USER_UID
RUN apt-get update && apt-get install -y sudo dpkg-dev python3
RUN groupadd --gid $USER_GID $USERNAME \
    && useradd --uid $USER_UID --gid $USER_GID -m $USERNAME \
    && echo $USERNAME ALL=\(root\) NOPASSWD:ALL > /etc/sudoers.d/$USERNAME \
    && chmod 0440 /etc/sudoers.d/$USERNAME
RUN mkdir -p /build/package/debian
RUN --mount=type=bind,source=debian/control,target=/build/package/debian/control apt-get -y build-dep /build/package
RUN mkdir -p {build_dir}
RUN chown $USERNAME:$USERNAME {build_dir}
USER $USERNAME
ENTRYPOINT ["sleep", "infinity"]
"#;

/// Settings of the container backend.
#[derive(Debug, Clone, Default)]
pub struct DriverDockerConfig {
    /// The image to build on; by default `docker.io/<distro>:<distro version>`.
    pub base_image: Option<String>,
    /// Keep the container (named after the build) between builds instead of removing it.
    pub persistent: bool,
}

/// What a container build records in the metadata document.
#[derive(Debug, Clone)]
pub struct DockerDriverBuildMetadata {
    pub container_name: String,
}

impl DockerDriverBuildMetadata {
    /// Reads the container name out of recorded driver metadata.
    pub fn from_driver_metadata(meta: &DriverSpecificBuildMetadata) -> (r: Result<
        Self,
        MetadataError,
    >)
        ensures
            r is Ok <==> meta@.contains_key(CONTAINER_NAME_KEY@),
            r matches Ok(m) ==> m.container_name@ == meta@[CONTAINER_NAME_KEY@],
            r is Err ==> r == Err::<Self, MetadataError>(MetadataError::MissingContainerName),
    {
        match meta.get(CONTAINER_NAME_KEY) {
            Some(container_name) => Ok(DockerDriverBuildMetadata { container_name }),
            None => Err(MetadataError::MissingContainerName),
        }
    }
}

/// The files and the image build that must exist before the container starts.
#[derive(Debug, Clone)]
pub struct DockerSetup {
    /// Tag of the image, derived from the build identifier.
    pub image_name: String,
    /// Where the rendered image definition is written.
    pub dockerfile_path: String,
    /// The rendered image definition.
    pub dockerfile: String,
    /// Directory to create beside the image definition.
    pub control_dir: String,
    /// The package's dependency declaration, copied from here ...
    pub control_source: String,
    /// ... to here.
    pub control_target: String,
    /// The image build; `None` in a dry run.
    pub image_build: Option<Invocation>,
}

pub struct DriverDocker {
    config: BuildConfig,
    _driver_config: DriverDockerConfig,
    container_name: String,
}

/// `debmagic-<build identifier>`.
pub open spec fn spec_image_name(c: BuildConfig) -> Seq<char> {
    "debmagic-"@ + c.spec_build_identifier()
}

/// The configured base image, or `docker.io/<distro>:<distro version>`.
pub open spec fn spec_base_image(c: BuildConfig, d: DriverDockerConfig) -> Seq<char> {
    match d.base_image {
        Some(b) => b@,
        None => "docker.io/"@ + c.distro@ + ":"@ + c.distro_version@,
    }
}

/// The image definition for `base_image`.
pub open spec fn spec_dockerfile(base_image: Seq<char>) -> Seq<char> {
    replaced(
        replaced(replaced(DOCKERFILE_TEMPLATE@, "{base_image}"@, base_image), "{docker_user}"@, DOCKER_USER@),
        "{build_dir}"@,
        BUILD_DIR_IN_CONTAINER@,
    )
}

/// `--build-arg <prefix><id>`, unless the id is root's.
pub open spec fn spec_id_arg(prefix: Seq<char>, id: u32) -> Seq<Seq<char>> {
    if id != 0 {
        seq!["--build-arg"@, prefix + decimal(id as nat)]
    } else {
        seq![]
    }
}

pub open spec fn spec_dockerfile_path(c: BuildConfig) -> Seq<char> {
    path_join(c.spec_temp_dir(), "Dockerfile"@)
}

/// The command line that builds the image, matching the host user's ids.
pub open spec fn spec_image_build(c: BuildConfig, uid: u32, gid: u32) -> Seq<Seq<char>> {
    seq!["docker"@, "build"@] + spec_id_arg("USER_UID="@, uid) + spec_id_arg("USER_GID="@, gid) + seq![
        "--tag"@,
        spec_image_name(c),
        "-f"@,
        spec_dockerfile_path(c),
        c.spec_temp_dir(),
    ]
}

/// The command line that starts a fresh detached container with the build root mounted.
pub open spec fn spec_container_run(c: BuildConfig, name: Seq<char>) -> Seq<Seq<char>> {
    seq![
        "docker"@,
        "run"@,
        "--detach"@,
        "--name"@,
        name,
        "--mount"@,
        "type=bind,src="@ + c.build_root_dir@ + ",dst="@ + BUILD_DIR_IN_CONTAINER@,
        spec_image_name(c),
    ]
}

/// A path on the host as seen inside the container, if it lies in the build root
/// (compared by path components, as std's `Path::strip_prefix` does).
pub open spec fn spec_container_path(c: BuildConfig, p: Seq<char>) -> Option<Seq<char>> {
    match components_below(c.build_root_dir@, p) {
        Some(rest) => Some(join_components(BUILD_DIR_IN_CONTAINER@, rest)),
        None => None,
    }
}

/// The command line that runs `cmd` inside the container `name`.
pub open spec fn spec_container_exec(
    name: Seq<char>,
    workdir: Seq<char>,
    requires_root: bool,
    cmd: Seq<Seq<char>>,
) -> Seq<Seq<char>> {
    seq!["docker"@, "exec"@, "--workdir"@, workdir] + (if requires_root {
        seq!["--user"@, "root"@]
    } else {
        seq![]
    }) + seq![name] + cmd
}

/// Relies on uuid::Uuid::new_v4: a fresh random identifier, written by its `Display`
/// in the hyphenated form of 36 characters, to name a container that no other build uses.
#[verifier::external_body]
fn random_container_name() -> (r: String)
    ensures
        r@.len() == 36,
{
    uuid::Uuid::new_v4().to_string()
}

impl DriverDocker {
    pub closed spec fn spec_config(&self) -> BuildConfig {
        self.config
    }

    pub closed spec fn spec_driver_config(&self) -> DriverDockerConfig {
        self.config_of_driver()
    }

    closed spec fn config_of_driver(&self) -> DriverDockerConfig {
        self._driver_config
    }

    pub closed spec fn spec_container_name(&self) -> Seq<char> {
        self.container_name@
    }

    /// Prepares a new container build. A persistent container is named after the
    /// build (`debmagic-<build identifier>`); any other gets a fresh random name.
    /// `uid` and `gid` are the ids of the host user, which the image's build user takes.
    pub fn create(config: &BuildConfig, driver_config: &DriverDockerConfig, uid: u32, gid: u32) -> (r:
        (Self, DockerSetup))
        ensures
            r.0.spec_config() == *config,
            r.0.spec_driver_config() == *driver_config,
            driver_config.persistent ==> r.0.spec_container_name() == spec_image_name(*config),
            !driver_config.persistent ==> r.0.spec_container_name().len() == 36,
            Self::setup_matches(r.1, *config, *driver_config, uid, gid),
    {
        let name = if driver_config.persistent {
            let mut n = String::from_str("debmagic-");
            let id = config.build_identifier();
            n.append(id.as_str());
            n
        } else {
            random_container_name()
        };
        Self::create_with_name(config, driver_config, uid, gid, name)
    }

    /// What must be done before the container of `c` starts.
    pub open spec fn setup_matches(
        s: DockerSetup,
        c: BuildConfig,
        d: DriverDockerConfig,
        uid: u32,
        gid: u32,
    ) -> bool {
        &&& s.image_name@ == spec_image_name(c)
        &&& s.dockerfile_path@ == spec_dockerfile_path(c)
        &&& s.dockerfile@ == spec_dockerfile(spec_base_image(c, d))
        &&& s.control_dir@ == path_join(c.spec_temp_dir(), "debian"@)
        &&& s.control_source@ == path_join(path_join(c.spec_source_dir(), "debian"@), "control"@)
        &&& s.control_target@ == path_join(path_join(c.spec_temp_dir(), "debian"@), "control"@)
        &&& if c.dry_run {
            s.image_build is None
        } else {
            s.image_build matches Some(inv) && strings_view(inv.argv@) == spec_image_build(
                c,
                uid,
                gid,
            ) && inv.cwd is None && inv.check_status
        }
    }

    /// Prepares a new container build whose container is called `container_name`.
    pub fn create_with_name(
        config: &BuildConfig,
        driver_config: &DriverDockerConfig,
        uid: u32,
        gid: u32,
        container_name: String,
    ) -> (r: (Self, DockerSetup))
        ensures
            r.0.spec_config() == *config,
            r.0.spec_driver_config() == *driver_config,
            r.0.spec_container_name() == container_name@,
            Self::setup_matches(r.1, *config, *driver_config, uid, gid),
    {
        let base_image = match &driver_config.base_image {
            Some(b) => b.clone(),
            None => {
                let mut b = String::from_str("docker.io/");
                b.append(config.distro.as_str());
                b.append(":");
                b.append(config.distro_version.as_str());
                b
            },
        };
        proof {
            reveal_strlit("{base_image}");
            reveal_strlit("{docker_user}");
            reveal_strlit("{build_dir}");
        }
        let step1 = replace_all(DOCKERFILE_TEMPLATE, "{base_image}", base_image.as_str());
        let step2 = replace_all(step1.as_str(), "{docker_user}", DOCKER_USER);
        let dockerfile = replace_all(step2.as_str(), "{build_dir}", BUILD_DIR_IN_CONTAINER);

        let temp_dir = config.build_temp_dir();
        let dockerfile_path = join_path(temp_dir.as_str(), "Dockerfile");
        let control_dir = join_path(temp_dir.as_str(), "debian");
        let control_target = join_path(control_dir.as_str(), "control");
        let source_dir = config.build_source_dir();
        let source_debian = join_path(source_dir.as_str(), "debian");
        let control_source = join_path(source_debian.as_str(), "control");

        let mut image_name = String::from_str("debmagic-");
        let id = config.build_identifier();
        image_name.append(id.as_str());

        let image_build = if config.dry_run {
            None
        } else {
            let mut argv: Vec<String> = Vec::new();
            push_text(&mut argv, "docker");
            push_text(&mut argv, "build");
            assert(strings_view(argv@) =~= seq!["docker"@, "build"@]);
            if uid != 0 {
                push_text(&mut argv, "--build-arg");
                let mut a = String::from_str("USER_UID=");
                let digits = decimal_text(uid);
                a.append(digits.as_str());
                push_text(&mut argv, a.as_str());
            }
            assert(strings_view(argv@) =~= seq!["docker"@, "build"@] + spec_id_arg("USER_UID="@, uid));
            if gid != 0 {
                push_text(&mut argv, "--build-arg");
                let mut a = String::from_str("USER_GID=");
                let digits = decimal_text(gid);
                a.append(digits.as_str());
                push_text(&mut argv, a.as_str());
            }
            assert(strings_view(argv@) =~= seq!["docker"@, "build"@] + spec_id_arg("USER_UID="@, uid)
                + spec_id_arg("USER_GID="@, gid));
            push_text(&mut argv, "--tag");
            push_text(&mut argv, image_name.as_str());
            push_text(&mut argv, "-f");
            push_text(&mut argv, dockerfile_path.as_str());
            push_text(&mut argv, temp_dir.as_str());
            assert(strings_view(argv@) =~= spec_image_build(*config, uid, gid));
            Some(Invocation { argv, cwd: None, check_status: true })
        };
        let setup = DockerSetup {
            image_name,
            dockerfile_path,
            dockerfile,
            control_dir,
            control_source,
            control_target,
            image_build,
        };
        let driver = DriverDocker {
            config: config.duplicate(),
            _driver_config: DriverDockerConfig {
                base_image: match &driver_config.base_image {
                    Some(b) => Some(b.clone()),
                    None => None,
                },
                persistent: driver_config.persistent,
            },
            container_name,
        };
        (driver, setup)
    }

    /// The driver of a running container build, from its metadata document.
    pub fn from_build_metadata(
        config: &BuildConfig,
        driver_config: &DriverDockerConfig,
        build_metadata: &BuildMetadata,
    ) -> (r: Result<Self, MetadataError>)
        ensures
            r is Ok <==> build_metadata.driver_metadata@.contains_key(CONTAINER_NAME_KEY@),
            r matches Ok(d) ==> d.spec_config() == *config && d.spec_driver_config()
                == *driver_config && d.spec_container_name()
                == build_metadata.driver_metadata@[CONTAINER_NAME_KEY@],
            r is Err ==> r == Err::<Self, MetadataError>(MetadataError::MissingContainerName),
    {
        let recorded = DockerDriverBuildMetadata::from_driver_metadata(
            &build_metadata.driver_metadata,
        )?;
        Ok(DriverDocker {
            config: config.duplicate(),
            _driver_config: DriverDockerConfig {
                base_image: match &driver_config.base_image {
                    Some(b) => Some(b.clone()),
                    None => None,
                },
                persistent: driver_config.persistent,
            },
            container_name: recorded.container_name,
        })
    }

    /// The commands that bring the container up, in order. A persistent container
    /// that `exists` is started again; otherwise a stale one of the same name is
    /// removed first, and a fresh container is run. Nothing runs in a dry run.
    pub fn container_acquisition(&self, exists: bool) -> (r: Vec<Invocation>)
        ensures
            ({
                let name = self.spec_container_name();
                let run = spec_container_run(self.spec_config(), name);
                if self.spec_config().dry_run {
                    r@.len() == 0
                } else if self.spec_driver_config().persistent && exists {
                    r@.len() == 1 && strings_view(r@[0].argv@) == seq!["docker"@, "start"@, name]
                } else if self.spec_driver_config().persistent {
                    r@.len() == 2 && strings_view(r@[0].argv@) == seq![
                        "docker"@,
                        "rm"@,
                        "-f"@,
                        name,
                    ] && !r@[0].check_status && strings_view(r@[1].argv@) == run
                        && r@[1].check_status
                } else {
                    r@.len() == 1 && strings_view(r@[0].argv@) == run && r@[0].check_status
                }
            }),
            forall|i: int| 0 <= i < r@.len() ==> r@[i].cwd is None,
    {
        let mut r: Vec<Invocation> = Vec::new();
        if self.config.dry_run {
            return r;
        }
        let name = self.container_name.as_str();
        if self._driver_config.persistent && exists {
            let mut argv: Vec<String> = Vec::new();
            push_all(&mut argv, &["docker", "start"]);
            push_text(&mut argv, name);
            assert(strings_view(argv@) =~= seq!["docker"@, "start"@, name@]);
            r.push(Invocation { argv, cwd: None, check_status: true });
            return r;
        }
        if self._driver_config.persistent {
            let mut argv: Vec<String> = Vec::new();
            push_all(&mut argv, &["docker", "rm", "-f"]);
            push_text(&mut argv, name);
            assert(strings_view(argv@) =~= seq!["docker"@, "rm"@, "-f"@, name@]);
            r.push(Invocation { argv, cwd: None, check_status: false });
        }
        let mut argv: Vec<String> = Vec::new();
        push_all(&mut argv, &["docker", "run", "--detach", "--name"]);
        push_text(&mut argv, name);
        push_text(&mut argv, "--mount");
        let mut mount = String::from_str("type=bind,src=");
        mount.append(self.config.build_root_dir.as_str());
        mount.append(",dst=");
        mount.append(BUILD_DIR_IN_CONTAINER);
        push_text(&mut argv, mount.as_str());
        let mut image_name = String::from_str("debmagic-");
        let id = self.config.build_identifier();
        image_name.append(id.as_str());
        push_text(&mut argv, image_name.as_str());
        assert(strings_view(argv@) =~= spec_container_run(self.config, name@));
        r.push(Invocation { argv, cwd: None, check_status: true });
        r
    }

    /// The path inside the container at which the host path `path_in_source` is seen.
    /// Fails for a path outside the build root, which the container cannot reach.
    pub fn translate_path_in_container(&self, path_in_source: &str) -> (r: Result<
        String,
        ExecutionError,
    >)
        ensures
            match spec_container_path(self.spec_config(), path_in_source@) {
                Some(p) => r matches Ok(s) && s@ == p,
                None => r matches Err(ExecutionError::PathOutsideBuildRoot { path }) && path@
                    == path_in_source@,
            },
    {
        match components_below_of(self.config.build_root_dir.as_str(), path_in_source) {
            Some(rest) => Ok(join_components_of(BUILD_DIR_IN_CONTAINER, &rest)),
            None => Err(ExecutionError::PathOutsideBuildRoot { path: String::from_str(path_in_source) }),
        }
    }

    /// What [`BuildDriver::get_build_metadata`] answers.
    pub open spec fn metadata_matches(&self, r: DriverSpecificBuildMetadata) -> bool {
        r@ == Map::<Seq<char>, Seq<char>>::empty().insert(
            CONTAINER_NAME_KEY@,
            self.spec_container_name(),
        )
    }

    /// What [`BuildDriver::run_command`] answers for `cmd` in `cwd`.
    pub open spec fn run_command_matches(&self, cmd: Seq<Seq<char>>, cwd: Seq<char>, requires_root: bool, caller_uid: u32, r: Result<CommandPlan, ExecutionError>) -> bool {
        match spec_container_path(self.spec_config(), cwd) {
            None => r matches Err(ExecutionError::PathOutsideBuildRoot { path }) && path@
                == cwd,
            Some(wd) => {
                let line = spec_container_exec(
                    self.spec_container_name(),
                    wd,
                    requires_root,
                    cmd,
                );
                if self.spec_config().dry_run {
                    r matches Ok(CommandPlan::Skip(shown)) && strings_view(shown@) == line
                } else {
                    r matches Ok(CommandPlan::Run(inv)) && strings_view(inv.argv@) == line
                        && inv.cwd is None && inv.check_status
                }
            },
        }
    }

    /// What [`BuildDriver::cleanup`] answers.
    pub open spec fn cleanup_matches(&self, r: Option<Invocation>) -> bool {
        if self.spec_config().dry_run {
            r is None
        } else {
            r matches Some(inv) && !inv.check_status && inv.cwd is None && strings_view(inv.argv@)
                == (if self.spec_driver_config().persistent {
                seq!["docker"@, "stop"@, self.spec_container_name()]
            } else {
                seq!["docker"@, "rm"@, "-f"@, self.spec_container_name()]
            })
        }
    }

    /// What [`BuildDriver::drop_into_shell`] answers.
    pub open spec fn shell_matches(&self, r: Result<CommandPlan, ExecutionError>) -> bool {
        ({
            let line = seq![
                "docker"@,
                "exec"@,
                "-it"@,
                "--workdir"@,
                path_join(BUILD_DIR_IN_CONTAINER@, Seq::empty()),
                self.spec_container_name(),
                "/usr/bin/env"@,
                "bash"@,
            ];
            if self.spec_config().dry_run {
                r matches Ok(CommandPlan::Skip(shown)) && strings_view(shown@) == line
            } else {
                r matches Ok(CommandPlan::Run(inv)) && strings_view(inv.argv@) == line
                    && inv.cwd is None && !inv.check_status
            }
        })
    }
}

impl BuildDriver for DriverDocker {
    fn get_build_metadata(&self) -> (r: DriverSpecificBuildMetadata)
        ensures
            self.metadata_matches(r),
    {
        let mut meta = DriverSpecificBuildMetadata::new();
        meta.insert(String::from_str(CONTAINER_NAME_KEY), self.container_name.clone());
        meta
    }

    /// Executes `cmd` inside the container, in the container path of `cwd` and as
    /// root if `requires_root`. A `cwd` outside the build root is refused before
    /// anything is run, in a dry run too.
    fn run_command(&self, cmd: &[&str], cwd: &str, requires_root: bool, caller_uid: u32) -> (r:
        Result<CommandPlan, ExecutionError>)
        ensures
            self.run_command_matches(strs_view(cmd@), cwd@, requires_root, caller_uid, r),
    {
        let workdir = self.translate_path_in_container(cwd)?;
        let mut argv: Vec<String> = Vec::new();
        push_all(&mut argv, &["docker", "exec", "--workdir"]);
        push_text(&mut argv, workdir.as_str());
        if requires_root {
            push_all(&mut argv, &["--user", "root"]);
        }
        push_text(&mut argv, self.container_name.as_str());
        push_all(&mut argv, cmd);
        assert(strings_view(argv@) =~= spec_container_exec(
            self.container_name@,
            workdir@,
            requires_root,
            strs_view(cmd@),
        ));
        if self.config.dry_run {
            return Ok(CommandPlan::Skip(argv));
        }
        Ok(CommandPlan::Run(Invocation { argv, cwd: None, check_status: true }))
    }

    /// Stops a persistent container, so that it can be reused; removes any other.
    /// Nothing runs in a dry run, where no container was started.
    fn cleanup(&self) -> (r: Option<Invocation>)
        ensures
            self.cleanup_matches(r),
    {
        if self.config.dry_run {
            return None;
        }
        let mut argv: Vec<String> = Vec::new();
        if self._driver_config.persistent {
            push_all(&mut argv, &["docker", "stop"]);
        } else {
            push_all(&mut argv, &["docker", "rm", "-f"]);
        }
        push_text(&mut argv, self.container_name.as_str());
        proof {
            if self._driver_config.persistent {
                assert(strings_view(argv@) =~= seq!["docker"@, "stop"@, self.container_name@]);
            } else {
                assert(strings_view(argv@) =~= seq!["docker"@, "rm"@, "-f"@, self.container_name@]);
            }
        }
        Some(Invocation { argv, cwd: None, check_status: false })
    }

    /// An interactive `bash` inside the container, at the mounted build root; how it
    /// exits does not matter. Nothing runs in a dry run.
    fn drop_into_shell(&self) -> (r: Result<CommandPlan, ExecutionError>)
        ensures
            self.shell_matches(r),
    {
        let workdir = join_path(BUILD_DIR_IN_CONTAINER, "");
        proof {
            reveal_strlit("");
        }
        let mut argv: Vec<String> = Vec::new();
        push_all(&mut argv, &["docker", "exec", "-it", "--workdir"]);
        assert(strings_view(argv@) =~= seq!["docker"@, "exec"@, "-it"@, "--workdir"@]);
        push_text(&mut argv, workdir.as_str());
        assert(workdir@ == path_join(BUILD_DIR_IN_CONTAINER@, Seq::empty()));
        push_text(&mut argv, self.container_name.as_str());
        push_all(&mut argv, &["/usr/bin/env", "bash"]);
        assert(strings_view(argv@) =~= seq![
            "docker"@,
            "exec"@,
            "-it"@,
            "--workdir"@,
            path_join(BUILD_DIR_IN_CONTAINER@, Seq::empty()),
            self.container_name@,
            "/usr/bin/env"@,
            "bash"@,
        ]);
        if self.config.dry_run {
            return Ok(CommandPlan::Skip(argv));
        }
        Ok(CommandPlan::Run(Invocation { argv, cwd: None, check_status: false }))
    }

    fn driver_type(&self) -> (r: BuildDriverType)
        ensures
            r == BuildDriverType::Docker,
    {
        BuildDriverType::Docker
    }
}

} // verus!
