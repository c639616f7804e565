//! The bare backend: commands run directly on the host.
use vstd::prelude::*;

use crate::common::{
    BuildConfig, BuildDriver, BuildDriverType, BuildMetadata, CommandPlan,
    DriverSpecificBuildMetadata, ExecutionError, Invocation, push_all, push_text, strings_view,
    strs_view,
};

verus! {

/// Settings of the bare backend (none so far).
#[derive(Debug, Clone, Copy, Default)]
pub struct DriverBareConfig {}

pub struct DriverBare {
    config: BuildConfig,
    _driver_config: DriverBareConfig,
}

/// The command line of the bare backend: `cmd`, behind `sudo` when root is
/// required and the caller is not root.
pub open spec fn bare_command_line(cmd: Seq<Seq<char>>, requires_root: bool, caller_uid: u32) -> Seq<
    Seq<char>,
> {
    if requires_root && caller_uid != 0 {
        seq!["sudo"@] + cmd
    } else {
        cmd
    }
}

impl DriverBare {
    pub closed spec fn spec_config(&self) -> BuildConfig {
        self.config
    }

    pub fn create(config: &BuildConfig, driver_config: &DriverBareConfig) -> (r: Self)
        ensures
            r.spec_config() == *config,
    {
        DriverBare { config: config.duplicate(), _driver_config: *driver_config }
    }

    /// The driver of a running build; the bare backend needs no recorded facts.
    pub fn from_build_metadata(
        config: &BuildConfig,
        driver_config: &DriverBareConfig,
        _build_metadata: &BuildMetadata,
    ) -> (r: Self)
        ensures
            r.spec_config() == *config,
    {
        DriverBare { config: config.duplicate(), _driver_config: *driver_config }
    }

    /// What [`BuildDriver::get_build_metadata`] answers.
    pub open spec fn metadata_matches(&self, r: DriverSpecificBuildMetadata) -> bool {
        r@ == Map::<Seq<char>, Seq<char>>::empty()
    }

    /// What [`BuildDriver::run_command`] answers for `cmd` in `cwd`.
    pub open spec fn run_command_matches(&self, cmd: Seq<Seq<char>>, cwd: Seq<char>, requires_root: bool, caller_uid: u32, r: Result<CommandPlan, ExecutionError>) -> bool {
        ({
            let line = bare_command_line(cmd, requires_root, caller_uid);
            if self.spec_config().dry_run {
                r matches Ok(CommandPlan::Skip(shown)) && strings_view(shown@) == line
            } else if line.len() == 0 {
                r == Err::<CommandPlan, ExecutionError>(ExecutionError::EmptyCommand)
            } else {
                r matches Ok(CommandPlan::Run(inv)) && strings_view(inv.argv@) == line
                    && inv.cwd.is_some() && inv.cwd.unwrap()@ == cwd && inv.check_status
            }
        })
    }

    /// What [`BuildDriver::cleanup`] answers.
    pub open spec fn cleanup_matches(&self, r: Option<Invocation>) -> bool {
        r is None
    }

    /// What [`BuildDriver::drop_into_shell`] answers.
    pub open spec fn shell_matches(&self, r: Result<CommandPlan, ExecutionError>) -> bool {
        let line = seq!["/usr/bin/env"@, "bash"@];
        if self.spec_config().dry_run {
            r matches Ok(CommandPlan::Skip(shown)) && strings_view(shown@) == line
        } else {
            r matches Ok(CommandPlan::Run(inv)) && strings_view(inv.argv@) == line && inv.cwd is None
                && !inv.check_status
        }
    }
}

impl BuildDriver for DriverBare {
    fn get_build_metadata(&self) -> (r: DriverSpecificBuildMetadata)
        ensures
            self.metadata_matches(r),
    {
        DriverSpecificBuildMetadata::new()
    }

    fn run_command(&self, cmd: &[&str], cwd: &str, requires_root: bool, caller_uid: u32) -> (r:
        Result<CommandPlan, ExecutionError>)
        ensures
            self.run_command_matches(strs_view(cmd@), cwd@, requires_root, caller_uid, r),
    {
        let mut argv: Vec<String> = Vec::new();
        if requires_root && caller_uid != 0 {
            push_text(&mut argv, "sudo");
        }
        push_all(&mut argv, cmd);
        assert(strings_view(argv@) =~= bare_command_line(strs_view(cmd@), requires_root, caller_uid));
        if self.config.dry_run {
            return Ok(CommandPlan::Skip(argv));
        }
        if argv.len() == 0 {
            return Err(ExecutionError::EmptyCommand);
        }
        Ok(CommandPlan::Run(Invocation { argv, cwd: Some(String::from_str(cwd)), check_status: true }))
    }

    fn cleanup(&self) -> (r: Option<Invocation>)
        ensures
            self.cleanup_matches(r),
    {
        None
    }

    /// An interactive `bash` on the host, in the caller's directory; how it exits does
    /// not matter. Nothing runs in a dry run.
    fn drop_into_shell(&self) -> (r: Result<CommandPlan, ExecutionError>)
        ensures
            self.shell_matches(r),
    {
        let mut argv: Vec<String> = Vec::new();
        argv.push(String::from_str("/usr/bin/env"));
        argv.push(String::from_str("bash"));
        assert(strings_view(argv@) =~= seq!["/usr/bin/env"@, "bash"@]);
        if self.config.dry_run {
            return Ok(CommandPlan::Skip(argv));
        }
        Ok(CommandPlan::Run(Invocation { argv, cwd: None, check_status: false }))
    }

    fn driver_type(&self) -> (r: BuildDriverType)
        ensures
            r == BuildDriverType::Bare,
    {
        BuildDriverType::Bare
    }
}

} // verus!
