//! The refusals of the mutating subcommands: nothing runs without `--execute`.
use vstd::prelude::*;
use vstd::string::*;

use crate::installer::{build_installer_plan, installer_outcome};
use crate::model::{
    AppError, InstallerBuildPlan, InstallerFacts, InstallerPlanModel, InstallerRunCommand,
    LocalFacts, SshRunCommand,
};
use crate::plan::{build_plan, plan_outcome};
use crate::render::{render_script, script_text};
use crate::text::owned;

verus! {

/// The refusal of `run` without `--execute`.
pub const RUN_REFUSAL: &'static str = "run refuses to execute without --execute; use `nixos-kexec script` for review";

/// The refusal of `installer build` without `--execute`.
pub const BUILD_REFUSAL: &'static str = "installer build refuses to run without --execute; use `nixos-kexec installer plan` for review";

/// What `run` executes: nothing without consent, else the script of the plan.
pub open spec fn run_outcome(c: SshRunCommand, f: LocalFacts) -> Result<Seq<char>, Seq<char>> {
    if !c.execute {
        Err(RUN_REFUSAL@)
    } else {
        match plan_outcome(c.ssh, f) {
            Err(m) => Err(m),
            Ok(plan) => Ok(script_text(plan)),
        }
    }
}

/// The orchestration script that `run` executes.
pub fn run_script(command: &SshRunCommand, facts: &LocalFacts) -> (res: Result<String, AppError>)
    ensures
        crate::model::outcome(res) == run_outcome(*command, *facts),
{
    if !command.execute {
        return Err(AppError::Message(owned(RUN_REFUSAL)));
    }
    match build_plan(&command.ssh, facts) {
        Ok(plan) => Ok(render_script(&plan)),
        Err(e) => Err(e),
    }
}

/// What `installer build` builds: nothing without consent, else the plan.
pub open spec fn build_outcome(c: InstallerRunCommand, f: InstallerFacts) -> Result<
    InstallerPlanModel,
    Seq<char>,
> {
    if !c.execute {
        Err(BUILD_REFUSAL@)
    } else {
        installer_outcome(c.build, f)
    }
}

/// The installer build that `installer build` runs.
pub fn installer_build_plan(command: &InstallerRunCommand, facts: &InstallerFacts) -> (res: Result<
    InstallerBuildPlan,
    AppError,
>)
    requires
        facts.authorized_key_file_texts@.len() == command.build.authorized_key_files@.len(),
    ensures
        crate::model::outcome(res) == build_outcome(*command, *facts),
{
    if !command.execute {
        return Err(AppError::Message(owned(BUILD_REFUSAL)));
    }
    build_installer_plan(&command.build, facts)
}

} // verus!
