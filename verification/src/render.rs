//! Text renderings of plans: the reviewable orchestration script and the
//! human-readable plan summaries.
use vstd::prelude::*;
use vstd::string::*;

use crate::commands::{phase_label, phase_name, render_command, rendered};
use crate::model::{
    CommandModel, DeploymentPlan, InstallerBuildPlan, InstallerPlanModel, PlanCommand, PlanModel,
};
use crate::quote::{shell_command, shell_line};
use crate::text::{decimal, owned, push_decimal, str_eq};

verus! {

/// The first lines of every script.
pub const SCRIPT_HEADER: &'static str = "#!/usr/bin/env bash\nset -euo pipefail\n\n# Generated by nixos-kexec. Review before running.\n\n";

/// Each item on a line of its own, after `prefix`.
pub open spec fn prefixed_lines(prefix: Seq<char>, items: Seq<Seq<char>>) -> Seq<char>
    decreases items.len(),
{
    if items.len() == 0 {
        Seq::empty()
    } else {
        prefixed_lines(prefix, items.drop_last()) + prefix + items.last() + "\n"@
    }
}

fn push_prefixed_lines(out: &mut String, prefix: &str, items: &Vec<String>)
    ensures
        final(out)@ == old(out)@ + prefixed_lines(prefix@, items.deep_view()),
{
    let ghost start = out@;
    let ghost all = items.deep_view();
    let mut i: usize = 0;
    assert(all.take(0) =~= Seq::<Seq<char>>::empty());
    while i < items.len()
        invariant
            all == items.deep_view(),
            0 <= i <= all.len(),
            out@ == start + prefixed_lines(prefix@, all.take(i as int)),
        decreases all.len() - i,
    {
        out.append(prefix);
        out.append(items[i].as_str());
        out.append("\n");
        assert(all.take(i + 1).drop_last() =~= all.take(i as int));
        assert(out@ =~= start + prefixed_lines(prefix@, all.take(i + 1)));
        i += 1;
    }
    assert(all.take(all.len() as int) =~= all);
}

/// A line with `prefix` and the value, when there is a value.
pub open spec fn optional_line(prefix: Seq<char>, value: Option<Seq<char>>) -> Seq<char> {
    match value {
        Some(v) => prefix + v + "\n"@,
        None => Seq::empty(),
    }
}

fn push_optional_line(out: &mut String, prefix: &str, value: &Option<String>)
    ensures
        final(out)@ == old(out)@ + optional_line(prefix@, value.deep_view()),
{
    if let Some(v) = value {
        out.append(prefix);
        out.append(v.as_str());
        out.append("\n");
    }
    assert(final(out)@ =~= old(out)@ + optional_line(prefix@, value.deep_view()));
}

/// How each command appears in a script: a comment with its phase and
/// description, then the command.
pub open spec fn script_commands(commands: Seq<CommandModel>) -> Seq<char>
    decreases commands.len(),
{
    if commands.len() == 0 {
        Seq::empty()
    } else {
        script_commands(commands.drop_last()) + "\n# "@ + phase_name(commands.last().phase) + ": "@
            + commands.last().description + "\n"@ + rendered(commands.last()) + "\n"@
    }
}

/// The orchestration script of a plan.
pub open spec fn script_text(plan: PlanModel) -> Seq<char> {
    SCRIPT_HEADER@ + "# INSTALL STRATEGY: "@ + plan.install_strategy_summary + "\n"@
        + prefixed_lines("# WARNING: "@, plan.warnings) + script_commands(plan.commands)
}

/// Renders the reviewable orchestration script of a plan.
pub fn render_script(plan: &DeploymentPlan) -> (res: String)
    ensures
        res@ == script_text(plan@),
{
    let mut script = owned(SCRIPT_HEADER);
    script.append("# INSTALL STRATEGY: ");
    script.append(plan.install_strategy_summary.as_str());
    script.append("\n");
    push_prefixed_lines(&mut script, "# WARNING: ", &plan.warnings);
    let ghost start = script@;
    let ghost all = plan.commands.deep_view();
    let mut i: usize = 0;
    assert(all.take(0) =~= Seq::<CommandModel>::empty());
    while i < plan.commands.len()
        invariant
            all == plan.commands.deep_view(),
            0 <= i <= all.len(),
            script@ == start + script_commands(all.take(i as int)),
        decreases all.len() - i,
    {
        let command = &plan.commands[i];
        script.append("\n# ");
        script.append(phase_label(command.phase));
        script.append(": ");
        script.append(command.description.as_str());
        script.append("\n");
        script.append(render_command(command).as_str());
        script.append("\n");
        assert(all.take(i + 1).drop_last() =~= all.take(i as int));
        assert(script@ =~= start + script_commands(all.take(i + 1)));
        i += 1;
    }
    assert(all.take(all.len() as int) =~= all);
    script
}

/// How each command appears in the plan summary.
pub open spec fn summary_commands(commands: Seq<CommandModel>) -> Seq<char>
    decreases commands.len(),
{
    if commands.len() == 0 {
        Seq::empty()
    } else {
        let c = commands.last();
        summary_commands(commands.drop_last()) + "["@ + phase_name(c.phase) + "] "@ + (if c.mutates {
            "mutates"@
        } else {
            "read-only"@
        }) + ": "@ + c.description + "\n"@ + "  "@ + rendered(c) + "\n"@
    }
}

/// The first lines of the plan summary: target, flakes and strategy.
pub open spec fn summary_head(plan: PlanModel) -> Seq<char> {
    "target: "@ + plan.target + "\n"@ + "flake: "@ + plan.flake + "\n"@ + (if plan.install_flake
        != plan.flake {
        "install flake: "@ + plan.install_flake + "\n"@
    } else {
        Seq::empty()
    }) + "install strategy: "@ + plan.install_strategy_summary + "\n"@
}

/// The lines of the plan summary on what is uploaded and run.
pub open spec fn summary_inputs(plan: PlanModel) -> Seq<char> {
    optional_line("flake source: "@, plan.flake_source) + prefixed_lines(
        "installer known_hosts file: "@,
        plan.installer_known_hosts_files,
    ) + optional_line("system: "@, plan.system) + "disk spec: "@ + plan.disk_spec + "\n"@
        + "disk-nix: "@ + plan.disk_nix + "\n"@ + optional_line(
        "disk-nix command: "@,
        plan.disk_nix_command,
    )
}

/// The lines of the plan summary on host identity.
pub open spec fn summary_identity(plan: PlanModel) -> Seq<char> {
    optional_line("host key: "@, plan.host_key) + optional_line(
        "host key public: "@,
        plan.host_key_public,
    ) + (if plan.generate_host_key {
        "host key: generated temporary ed25519 key\n"@
    } else {
        Seq::empty()
    }) + optional_line("identity host: "@, plan.identity_host) + optional_line(
        "identity hook: "@,
        plan.identity_hook,
    ) + optional_line("identity rollback hook: "@, plan.identity_rollback_hook)
}

/// The human-readable summary of a deployment plan.
pub open spec fn plan_summary(plan: PlanModel) -> Seq<char> {
    summary_head(plan) + summary_inputs(plan) + summary_identity(plan) + "\n"@ + prefixed_lines(
        "warning: "@,
        plan.warnings,
    ) + "\n"@ + summary_commands(plan.commands)
}

fn push_summary_head(out: &mut String, plan: &DeploymentPlan)
    ensures
        final(out)@ == old(out)@ + summary_head(plan@),
{
    out.append("target: ");
    out.append(plan.target.as_str());
    out.append("\n");
    out.append("flake: ");
    out.append(plan.flake.as_str());
    out.append("\n");
    if !str_eq(plan.install_flake.as_str(), plan.flake.as_str()) {
        out.append("install flake: ");
        out.append(plan.install_flake.as_str());
        out.append("\n");
    }
    out.append("install strategy: ");
    out.append(plan.install_strategy_summary.as_str());
    out.append("\n");
    assert(final(out)@ =~= old(out)@ + summary_head(plan@));
}

#[verifier::rlimit(40)]
fn push_summary_inputs(out: &mut String, plan: &DeploymentPlan)
    ensures
        final(out)@ == old(out)@ + summary_inputs(plan@),
{
    push_optional_line(out, "flake source: ", &plan.flake_source);
    push_prefixed_lines(out, "installer known_hosts file: ", &plan.installer_known_hosts_files);
    push_optional_line(out, "system: ", &plan.system);
    out.append("disk spec: ");
    out.append(plan.disk_spec.as_str());
    out.append("\n");
    out.append("disk-nix: ");
    out.append(plan.disk_nix.as_str());
    out.append("\n");
    push_optional_line(out, "disk-nix command: ", &plan.disk_nix_command);
    assert(final(out)@ =~= old(out)@ + summary_inputs(plan@));
}

#[verifier::rlimit(40)]
fn push_summary_identity(out: &mut String, plan: &DeploymentPlan)
    ensures
        final(out)@ == old(out)@ + summary_identity(plan@),
{
    push_optional_line(out, "host key: ", &plan.host_key);
    push_optional_line(out, "host key public: ", &plan.host_key_public);
    if plan.generate_host_key {
        out.append("host key: generated temporary ed25519 key\n");
    }
    push_optional_line(out, "identity host: ", &plan.identity_host);
    push_optional_line(out, "identity hook: ", &plan.identity_hook);
    push_optional_line(out, "identity rollback hook: ", &plan.identity_rollback_hook);
    assert(final(out)@ =~= old(out)@ + summary_identity(plan@));
}

fn push_summary_commands(out: &mut String, commands: &Vec<PlanCommand>)
    ensures
        final(out)@ == old(out)@ + summary_commands(commands.deep_view()),
{
    let ghost start = out@;
    let ghost all = commands.deep_view();
    let mut i: usize = 0;
    assert(all.take(0) =~= Seq::<CommandModel>::empty());
    while i < commands.len()
        invariant
            all == commands.deep_view(),
            0 <= i <= all.len(),
            out@ == start + summary_commands(all.take(i as int)),
        decreases all.len() - i,
    {
        let command = &commands[i];
        out.append("[");
        out.append(phase_label(command.phase));
        out.append("] ");
        out.append(if command.mutates {
            "mutates"
        } else {
            "read-only"
        });
        out.append(": ");
        out.append(command.description.as_str());
        out.append("\n");
        out.append("  ");
        out.append(render_command(command).as_str());
        out.append("\n");
        assert(all.take(i + 1).drop_last() =~= all.take(i as int));
        assert(out@ =~= start + summary_commands(all.take(i + 1)));
        i += 1;
    }
    assert(all.take(all.len() as int) =~= all);
}

/// The text that `plan` prints for a deployment plan.
pub fn plan_text(plan: &DeploymentPlan) -> (res: String)
    ensures
        res@ == plan_summary(plan@),
{
    let mut out = String::new();
    push_summary_head(&mut out, plan);
    push_summary_inputs(&mut out, plan);
    push_summary_identity(&mut out, plan);
    out.append("\n");
    push_prefixed_lines(&mut out, "warning: ", &plan.warnings);
    out.append("\n");
    push_summary_commands(&mut out, &plan.commands);
    assert(out@ =~= plan_summary(plan@));
    out
}

/// The text that `installer plan` prints.
pub open spec fn installer_summary(plan: InstallerPlanModel) -> Seq<char> {
    "installer system: "@ + plan.system + "\n"@ + "nixos-kexec flake: "@ + plan.nixos_kexec_flake
        + "\n"@ + "disk-nix flake: "@ + plan.disk_nix_flake + "\n"@ + "nixpkgs flake: "@
        + plan.nixpkgs_flake + "\n"@ + "authorized keys: "@ + decimal(plan.authorized_key_count)
        + "\n"@ + optional_line(
        "NetworkManager profiles JSON: "@,
        plan.network_manager_profiles_json,
    ) + optional_line("out link: "@, plan.out_link) + "\n"@ + prefixed_lines(
        "warning: "@,
        plan.warnings,
    ) + "\n"@ + shell_line(plan.argv) + "\n"@
}

/// The text printed for an installer build plan.
pub fn installer_plan_text(plan: &InstallerBuildPlan) -> (res: String)
    ensures
        res@ == installer_summary(plan@),
{
    let mut out = owned("installer system: ");
    out.append(plan.system.as_str());
    out.append("\n");
    out.append("nixos-kexec flake: ");
    out.append(plan.nixos_kexec_flake.as_str());
    out.append("\n");
    out.append("disk-nix flake: ");
    out.append(plan.disk_nix_flake.as_str());
    out.append("\n");
    out.append("nixpkgs flake: ");
    out.append(plan.nixpkgs_flake.as_str());
    out.append("\n");
    out.append("authorized keys: ");
    push_decimal(&mut out, plan.authorized_key_count);
    out.append("\n");
    push_optional_line(&mut out, "NetworkManager profiles JSON: ", &plan.network_manager_profiles_json);
    push_optional_line(&mut out, "out link: ", &plan.out_link);
    out.append("\n");
    push_prefixed_lines(&mut out, "warning: ", &plan.warnings);
    out.append("\n");
    out.append(shell_command(&plan.argv).as_str());
    out.append("\n");
    assert(out@ =~= installer_summary(plan@));
    out
}

} // verus!
