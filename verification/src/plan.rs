//! The deployment plan: the checks made before anything is planned, and the
//! ordered commands of the workflow.
use vstd::prelude::*;
use vstd::string::*;

use crate::commands::{
    await_script, await_ssh_script, command_model, copy_system_command, copy_system_script,
    disconnect_tolerant_script, disconnect_tolerant_ssh_command, disk_nix_invocation, disk_nix_line,
    local_command, remote_spec, scp_argv, scp_command, scp_lines, scp_to_remote_paths_command,
    sh_argv, ssh_argv, ssh_command,
};
use crate::facts::{
    is_dir, is_file, missing_file_message, missing_path_message, path_is_dir, require_existing_path,
    require_file,
};
use crate::identity::{
    disarm_identity_rollback_command, disarm_model, effective_host_key_public,
    effective_identity_host, generate_host_key_command, generate_key_model, has_host_identity,
    has_identity, host_identity_commands, host_identity_models, host_key_public_outcome,
    identity_host_outcome, identity_hook_command, identity_hook_model, identity_rollback_trap_command,
    identity_state_command, identity_state_model, rollback_trap_model,
};
use crate::kexec::{effective_kexec_append, kexec_append_outcome};
use crate::model::{
    AppError, CommandModel, DeploymentPlan, InstallStrategy, LocalFacts, PathProbe, Phase,
    PlanCommand, PlanModel, SshCommand,
};
use crate::quote::{shell_quote, shell_quoted};
use crate::staging::{
    installer_known_hosts_commands, known_hosts_commands, stage_flake_script,
    stage_flake_source_command,
};
use crate::text::{find, lemma_find, owned};

verus! {

// ---------------------------------------------------------------------------
// Remote paths and the install strategy
// ---------------------------------------------------------------------------

pub open spec fn remote_disk_spec(c: SshCommand) -> Seq<char> {
    c.remote_workdir@ + "/disk-nix-install.json"@
}

pub open spec fn remote_kernel(c: SshCommand) -> Seq<char> {
    c.remote_workdir@ + "/kexec/kernel"@
}

pub open spec fn remote_initrd(c: SshCommand) -> Seq<char> {
    c.remote_workdir@ + "/kexec/initrd"@
}

pub open spec fn remote_flake_dir(c: SshCommand) -> Seq<char> {
    c.remote_workdir@ + "/flake-source"@
}

fn workdir_path(command: &SshCommand, suffix: &str) -> (res: String)
    ensures
        res@ == command.remote_workdir@ + suffix@,
{
    let mut p = owned(command.remote_workdir.as_str());
    p.append(suffix);
    p
}

/// The installable handed to the install step: the flake as given, or with
/// a staged flake source at `staged`, that path with the flake's `#host`
/// fragment.
pub open spec fn install_flake_at(c: SshCommand, staged: Seq<char>) -> Result<Seq<char>, Seq<char>> {
    if c.flake_source is None {
        Ok(c.flake@)
    } else {
        match find(c.flake@, seq!['#']) {
            None => Err(
                "local flake source staging requires --flake to include a #host fragment"@,
            ),
            Some(k) => if k + 1 == c.flake@.len() {
                Err("local flake source staging requires a non-empty #host fragment"@)
            } else {
                Ok("path:"@ + staged + "#"@ + c.flake@.skip(k + 1))
            },
        }
    }
}

/// The installable of a plan, with the flake source staged in the workdir.
pub open spec fn install_flake_outcome(c: SshCommand) -> Result<Seq<char>, Seq<char>> {
    install_flake_at(c, remote_flake_dir(c))
}

/// The installable for the install step.
pub fn install_flake(command: &SshCommand, remote_flake_source: &str) -> (res: Result<
    String,
    AppError,
>)
    ensures
        match res {
            Ok(s) => install_flake_at(*command, remote_flake_source@) == Ok::<Seq<char>, Seq<char>>(
                s@,
            ),
            Err(e) => install_flake_at(*command, remote_flake_source@) == Err::<Seq<char>, Seq<char>>(
                e.text(),
            ),
        },
{
    if command.flake_source.is_none() {
        return Ok(owned(command.flake.as_str()));
    }
    proof {
        lemma_find(command.flake@, seq!['#']);
    }
    match crate::identity::fragment_after_hash(command.flake.as_str()) {
        None => Err(
            AppError::Message(
                owned("local flake source staging requires --flake to include a #host fragment"),
            ),
        ),
        Some(fragment) => {
            if fragment.as_str().is_empty() {
                Err(
                    AppError::Message(
                        owned("local flake source staging requires a non-empty #host fragment"),
                    ),
                )
            } else {
                let mut s = owned("path:");
                s.append(remote_flake_source);
                s.append("#");
                s.append(fragment.as_str());
                Ok(s)
            }
        },
    }
}

/// The install strategy that the options select.
pub open spec fn strategy_of(c: SshCommand) -> InstallStrategy {
    if c.system is Some {
        InstallStrategy::CopyPrebuiltSystem
    } else if c.flake_source is Some {
        InstallStrategy::StageLocalFlake
    } else {
        InstallStrategy::InstallerBuildsFlake
    }
}

/// Where the system closure comes from.
pub fn install_strategy(command: &SshCommand) -> (res: InstallStrategy)
    ensures
        res == strategy_of(*command),
{
    if command.system.is_some() {
        InstallStrategy::CopyPrebuiltSystem
    } else if command.flake_source.is_some() {
        InstallStrategy::StageLocalFlake
    } else {
        InstallStrategy::InstallerBuildsFlake
    }
}

/// The one-line summary of a strategy.
pub open spec fn strategy_summary(s: InstallStrategy) -> Seq<char> {
    match s {
        InstallStrategy::InstallerBuildsFlake =>
            "installer evaluates the flake and builds or downloads the target system closure"@,
        InstallStrategy::StageLocalFlake =>
            "nixos-kexec uploads local flake source; installer builds or downloads the target system closure"@,
        InstallStrategy::CopyPrebuiltSystem =>
            "nixos-kexec copies a prebuilt system closure into the mounted target store"@,
    }
}

/// Summarises a strategy.
pub fn install_strategy_summary(strategy: InstallStrategy) -> (res: &'static str)
    ensures
        res@ == strategy_summary(strategy),
{
    match strategy {
        InstallStrategy::InstallerBuildsFlake => "installer evaluates the flake and builds or downloads the target system closure",
        InstallStrategy::StageLocalFlake => "nixos-kexec uploads local flake source; installer builds or downloads the target system closure",
        InstallStrategy::CopyPrebuiltSystem => "nixos-kexec copies a prebuilt system closure into the mounted target store",
    }
}

/// The warning that goes with a strategy.
pub open spec fn strategy_warning(s: InstallStrategy) -> Seq<char> {
    match s {
        InstallStrategy::InstallerBuildsFlake =>
            "no system closure is copied by nixos-kexec; the installer must be able to fetch, build, or substitute the flake"@,
        InstallStrategy::StageLocalFlake =>
            "local flake source is uploaded after kexec; the installer still must build or substitute the system closure"@,
        InstallStrategy::CopyPrebuiltSystem =>
            "--system copies the prebuilt closure after disk-nix mounts the target; this can be large over slow links"@,
    }
}

/// Warns about what a strategy asks of the installer.
pub fn install_strategy_warning(strategy: InstallStrategy) -> (res: &'static str)
    ensures
        res@ == strategy_warning(strategy),
{
    match strategy {
        InstallStrategy::InstallerBuildsFlake => "no system closure is copied by nixos-kexec; the installer must be able to fetch, build, or substitute the flake",
        InstallStrategy::StageLocalFlake => "local flake source is uploaded after kexec; the installer still must build or substitute the system closure",
        InstallStrategy::CopyPrebuiltSystem => "--system copies the prebuilt closure after disk-nix mounts the target; this can be large over slow links",
    }
}


// ---------------------------------------------------------------------------
// The commands of the workflow
// ---------------------------------------------------------------------------

pub open spec fn preflight_model(c: SshCommand) -> CommandModel {
    command_model(
        Phase::Preflight,
        "check remote root access and required tools before staging kexec"@,
        false,
        ssh_argv(
            c,
            false,
            "set -euo pipefail; test \"$(id -u)\" = 0; command -v kexec >/dev/null; command -v sshd >/dev/null || command -v systemctl >/dev/null; mkdir -p "@
                + shell_quoted(c.remote_workdir@ + "/kexec"@),
        ),
    )
}

fn preflight_command(command: &SshCommand) -> (res: PlanCommand)
    ensures
        res@ == preflight_model(*command),
{
    let dir = workdir_path(command, "/kexec");
    let mut script = owned(
        "set -euo pipefail; test \"$(id -u)\" = 0; command -v kexec >/dev/null; command -v sshd >/dev/null || command -v systemctl >/dev/null; mkdir -p ",
    );
    script.append(shell_quote(dir.as_str()).as_str());
    ssh_command(
        command,
        Phase::Preflight,
        "check remote root access and required tools before staging kexec",
        false,
        script,
    )
}

pub open spec fn stage_kexec_model(c: SshCommand) -> CommandModel {
    command_model(
        Phase::StageKexec,
        "upload kexec kernel and initrd to the current host"@,
        false,
        sh_argv(
            scp_lines(c, seq![(c.kexec_kernel@, remote_kernel(c)), (c.kexec_initrd@, remote_initrd(c))]),
        ),
    )
}

fn stage_kexec_command(command: &SshCommand) -> (res: PlanCommand)
    ensures
        res@ == stage_kexec_model(*command),
{
    let mut files: Vec<(String, String)> = Vec::new();
    files.push((owned(command.kexec_kernel.as_str()), workdir_path(command, "/kexec/kernel")));
    files.push((owned(command.kexec_initrd.as_str()), workdir_path(command, "/kexec/initrd")));
    assert(files.deep_view() =~= seq![
        (command.kexec_kernel@, remote_kernel(*command)),
        (command.kexec_initrd@, remote_initrd(*command)),
    ]);
    scp_to_remote_paths_command(
        command,
        Phase::StageKexec,
        "upload kexec kernel and initrd to the current host",
        false,
        &files,
    )
}

/// The remote fragment that loads and enters the installer kernel.
pub open spec fn kexec_script(c: SshCommand, append: Seq<char>) -> Seq<char> {
    "set -euo pipefail; kexec -l "@ + shell_quoted(remote_kernel(c)) + " --initrd="@
        + shell_quoted(remote_initrd(c)) + " --append "@ + shell_quoted(append)
        + "; echo 'nixos-kexec: entering kexec' >&2; sync; kexec -e"@
}

pub open spec fn kexec_model(c: SshCommand, append: Seq<char>) -> CommandModel {
    command_model(
        Phase::Kexec,
        "load and enter the staged kexec installer"@,
        true,
        sh_argv(disconnect_tolerant_script(c, kexec_script(c, append))),
    )
}

fn kexec_command(command: &SshCommand, append: &str) -> (res: PlanCommand)
    ensures
        res@ == kexec_model(*command, append@),
{
    let kernel = workdir_path(command, "/kexec/kernel");
    let initrd = workdir_path(command, "/kexec/initrd");
    let mut script = owned("set -euo pipefail; kexec -l ");
    script.append(shell_quote(kernel.as_str()).as_str());
    script.append(" --initrd=");
    script.append(shell_quote(initrd.as_str()).as_str());
    script.append(" --append ");
    script.append(shell_quote(append).as_str());
    script.append("; echo 'nixos-kexec: entering kexec' >&2; sync; kexec -e");
    disconnect_tolerant_ssh_command(
        command,
        Phase::Kexec,
        "load and enter the staged kexec installer",
        true,
        script,
    )
}

pub open spec fn await_model(c: SshCommand) -> CommandModel {
    command_model(
        Phase::AwaitInstaller,
        "wait for SSH to return after kexec"@,
        false,
        sh_argv(await_script(c)),
    )
}

fn await_command(command: &SshCommand) -> (res: PlanCommand)
    ensures
        res@ == await_model(*command),
{
    let mut argv: Vec<String> = Vec::new();
    argv.push(owned("sh"));
    argv.push(owned("-c"));
    let script = await_ssh_script(command);
    let ghost sv = script@;
    argv.push(script);
    assert(argv.deep_view() =~= sh_argv(sv));
    local_command(Phase::AwaitInstaller, "wait for SSH to return after kexec", false, argv)
}

pub open spec fn stage_install_model(c: SshCommand) -> CommandModel {
    command_model(
        Phase::StageInstall,
        "prepare installer workdir after kexec"@,
        false,
        ssh_argv(
            c,
            false,
            "set -euo pipefail; command -v tar >/dev/null; mkdir -p "@ + shell_quoted(
                c.remote_workdir@,
            ),
        ),
    )
}

fn stage_install_command(command: &SshCommand) -> (res: PlanCommand)
    ensures
        res@ == stage_install_model(*command),
{
    let mut script = owned("set -euo pipefail; command -v tar >/dev/null; mkdir -p ");
    script.append(shell_quote(command.remote_workdir.as_str()).as_str());
    ssh_command(command, Phase::StageInstall, "prepare installer workdir after kexec", false, script)
}

pub open spec fn upload_spec_model(c: SshCommand) -> CommandModel {
    command_model(
        Phase::StageInstall,
        "upload disk-nix install spec to the kexec installer"@,
        false,
        scp_argv(c, seq![c.disk_spec@, remote_spec(c, remote_disk_spec(c))]),
    )
}

fn upload_spec_command(command: &SshCommand) -> (res: PlanCommand)
    ensures
        res@ == upload_spec_model(*command),
{
    let mut args: Vec<String> = Vec::new();
    args.push(owned(command.disk_spec.as_str()));
    let mut remote = owned(command.target.as_str());
    remote.append(":");
    remote.append(workdir_path(command, "/disk-nix-install.json").as_str());
    args.push(remote);
    assert(args.deep_view() =~= seq![
        command.disk_spec@,
        remote_spec(*command, remote_disk_spec(*command)),
    ]);
    scp_command(
        command,
        Phase::StageInstall,
        "upload disk-nix install spec to the kexec installer",
        false,
        args,
    )
}

/// A remote disk-nix run.
pub open spec fn disk_nix_step(
    c: SshCommand,
    phase: Phase,
    description: Seq<char>,
    args: Seq<Seq<char>>,
) -> CommandModel {
    command_model(
        phase,
        description,
        true,
        ssh_argv(c, true, "set -euo pipefail; "@ + disk_nix_line(c, args)),
    )
}

fn disk_nix_command(command: &SshCommand, phase: Phase, description: &str, args: Vec<String>) -> (res:
    PlanCommand)
    ensures
        res@ == disk_nix_step(*command, phase, description@, args.deep_view()),
{
    let mut script = owned("set -euo pipefail; ");
    script.append(disk_nix_invocation(command, &args).as_str());
    ssh_command(command, phase, description, true, script)
}

pub open spec fn apply_args(c: SshCommand) -> Seq<Seq<char>> {
    seq!["apply"@, "--spec"@, remote_disk_spec(c), "--probe-current"@, "--execute"@]
}

pub open spec fn disk_apply_model(c: SshCommand) -> CommandModel {
    disk_nix_step(
        c,
        Phase::DiskNixApply,
        "apply disk-nix storage spec inside the installer environment"@,
        apply_args(c),
    )
}

fn disk_apply_command(command: &SshCommand) -> (res: PlanCommand)
    ensures
        res@ == disk_apply_model(*command),
{
    let mut args: Vec<String> = Vec::new();
    args.push(owned("apply"));
    args.push(owned("--spec"));
    args.push(workdir_path(command, "/disk-nix-install.json"));
    args.push(owned("--probe-current"));
    args.push(owned("--execute"));
    assert(args.deep_view() =~= apply_args(*command));
    disk_nix_command(
        command,
        Phase::DiskNixApply,
        "apply disk-nix storage spec inside the installer environment",
        args,
    )
}

pub open spec fn mount_args(c: SshCommand) -> Seq<Seq<char>> {
    seq![
        "install"@,
        "mount"@,
        "--spec"@,
        remote_disk_spec(c),
        "--target"@,
        c.target_root@,
        "--execute"@,
    ]
}

pub open spec fn mount_model(c: SshCommand) -> CommandModel {
    disk_nix_step(c, Phase::NixosInstall, "mount target storage through disk-nix"@, mount_args(c))
}

fn mount_command(command: &SshCommand) -> (res: PlanCommand)
    ensures
        res@ == mount_model(*command),
{
    let mut args: Vec<String> = Vec::new();
    args.push(owned("install"));
    args.push(owned("mount"));
    args.push(owned("--spec"));
    args.push(workdir_path(command, "/disk-nix-install.json"));
    args.push(owned("--target"));
    args.push(owned(command.target_root.as_str()));
    args.push(owned("--execute"));
    assert(args.deep_view() =~= mount_args(*command));
    disk_nix_command(command, Phase::NixosInstall, "mount target storage through disk-nix", args)
}

pub open spec fn disk_install_args(c: SshCommand, flake: Seq<char>) -> Seq<Seq<char>> {
    seq![
        "install"@,
        "nixos"@,
        "--spec"@,
        remote_disk_spec(c),
        "--flake"@,
        flake,
        "--target"@,
        c.target_root@,
        "--execute"@,
    ]
}

pub open spec fn disk_install_model(c: SshCommand, flake: Seq<char>) -> CommandModel {
    disk_nix_step(
        c,
        Phase::NixosInstall,
        "mount target storage and run nixos-install through disk-nix"@,
        disk_install_args(c, flake),
    )
}

fn disk_install_command(command: &SshCommand, flake: &str) -> (res: PlanCommand)
    ensures
        res@ == disk_install_model(*command, flake@),
{
    let mut args: Vec<String> = Vec::new();
    args.push(owned("install"));
    args.push(owned("nixos"));
    args.push(owned("--spec"));
    args.push(workdir_path(command, "/disk-nix-install.json"));
    args.push(owned("--flake"));
    args.push(owned(flake));
    args.push(owned("--target"));
    args.push(owned(command.target_root.as_str()));
    args.push(owned("--execute"));
    assert(args.deep_view() =~= disk_install_args(*command, flake@));
    disk_nix_command(
        command,
        Phase::NixosInstall,
        "mount target storage and run nixos-install through disk-nix",
        args,
    )
}

/// `nixos-install` run directly, with `--system` or `--flake`.
pub open spec fn nixos_install_model(
    c: SshCommand,
    description: Seq<char>,
    option: Seq<char>,
    value: Seq<char>,
) -> CommandModel {
    command_model(
        Phase::NixosInstall,
        description,
        true,
        ssh_argv(
            c,
            true,
            "set -euo pipefail; nixos-install --root "@ + shell_quoted(c.target_root@) + " "@
                + option + " "@ + shell_quoted(value) + " --no-root-passwd --no-channel-copy"@,
        ),
    )
}

fn nixos_install_command(command: &SshCommand, description: &str, option: &str, value: &str) -> (res:
    PlanCommand)
    ensures
        res@ == nixos_install_model(*command, description@, option@, value@),
{
    let mut script = owned("set -euo pipefail; nixos-install --root ");
    script.append(shell_quote(command.target_root.as_str()).as_str());
    script.append(" ");
    script.append(option);
    script.append(" ");
    script.append(shell_quote(value).as_str());
    script.append(" --no-root-passwd --no-channel-copy");
    ssh_command(command, Phase::NixosInstall, description, true, script)
}

pub open spec fn reboot_model(c: SshCommand) -> CommandModel {
    command_model(
        Phase::Reboot,
        "sync and reboot into the installed system"@,
        true,
        ssh_argv(c, true, "set -euo pipefail; sync; reboot"@),
    )
}

fn reboot_command(command: &SshCommand) -> (res: PlanCommand)
    ensures
        res@ == reboot_model(*command),
{
    ssh_command(
        command,
        Phase::Reboot,
        "sync and reboot into the installed system",
        true,
        owned("set -euo pipefail; sync; reboot"),
    )
}

// ---------------------------------------------------------------------------
// Assembling the plan
// ---------------------------------------------------------------------------

/// The local identity steps that come first: the generated key or the hook's
/// state directory, the armed rollback hook, then the identity hook.
pub open spec fn identity_prefix(
    c: SshCommand,
    identity_host: Option<Seq<char>>,
    public_key: Option<Seq<char>>,
) -> Seq<CommandModel> {
    (if c.generate_host_key {
        seq![generate_key_model(identity_host)]
    } else if c.identity_hook is Some {
        seq![identity_state_model()]
    } else {
        Seq::empty()
    }) + (match c.identity_rollback_hook {
        Some(r) => seq![rollback_trap_model(c, r@, identity_host, public_key)],
        None => Seq::empty(),
    }) + (match c.identity_hook {
        Some(h) => seq![identity_hook_model(c, h@, identity_host, public_key)],
        None => Seq::empty(),
    })
}

fn identity_prefix_commands(
    command: &SshCommand,
    identity_host: &Option<String>,
    public_key: &Option<String>,
) -> (res: Vec<PlanCommand>)
    ensures
        res.deep_view() == identity_prefix(
            *command,
            identity_host.deep_view(),
            public_key.deep_view(),
        ),
{
    let mut v: Vec<PlanCommand> = Vec::new();
    if command.generate_host_key {
        v.push(generate_host_key_command(command, identity_host));
    } else if command.identity_hook.is_some() {
        v.push(identity_state_command());
    }
    let ghost a = v.deep_view();
    if let Some(r) = &command.identity_rollback_hook {
        v.push(identity_rollback_trap_command(command, r.as_str(), identity_host, public_key));
    }
    let ghost b = v.deep_view();
    if let Some(h) = &command.identity_hook {
        v.push(identity_hook_command(command, h.as_str(), identity_host, public_key));
    }
    assert(a =~= (if command.generate_host_key {
        seq![generate_key_model(identity_host.deep_view())]
    } else if command.identity_hook is Some {
        seq![identity_state_model()]
    } else {
        Seq::empty()
    }));
    assert(b =~= a + (match command.identity_rollback_hook {
        Some(r) => seq![rollback_trap_model(*command, r@, identity_host.deep_view(), public_key.deep_view())],
        None => Seq::empty(),
    }));
    assert(v.deep_view() =~= identity_prefix(
        *command,
        identity_host.deep_view(),
        public_key.deep_view(),
    ));
    v
}

/// From the preflight check to the kexec and the installer's return.
pub open spec fn kexec_phase(c: SshCommand, append: Seq<char>) -> Seq<CommandModel> {
    seq![preflight_model(c), stage_kexec_model(c), kexec_model(c, append), await_model(c), stage_install_model(c)]
}

/// The staging of the flake source, known_hosts and install spec, then disk-nix apply.
pub open spec fn staging_phase(c: SshCommand) -> Seq<CommandModel> {
    (match c.flake_source {
        Some(src) => seq![
            command_model(
                Phase::StageInstall,
                "upload local flake source into the installer"@,
                false,
                sh_argv(stage_flake_script(c, src@, remote_flake_dir(c))),
            ),
        ],
        None => Seq::empty(),
    }) + known_hosts_commands(c) + seq![upload_spec_model(c), disk_apply_model(c)]
}

/// The install handoff: disk-nix install when nothing has to happen between
/// mounting and installing, else mount, host identity, optional closure
/// copy, and `nixos-install`.
pub open spec fn install_phase(c: SshCommand, public_key: Option<Seq<char>>, flake: Seq<char>) -> Seq<
    CommandModel,
> {
    match c.system {
        Some(sys) => seq![mount_model(c)] + host_identity_models(c, public_key) + seq![
            command_model(
                Phase::CopySystem,
                "copy prebuilt NixOS system closure into the mounted target store"@,
                true,
                sh_argv(copy_system_script(c, sys@)),
            ),
            nixos_install_model(c, "install prebuilt NixOS system closure"@, "--system"@, sys@),
        ],
        None => if has_identity(c) {
            seq![mount_model(c)] + host_identity_models(c, public_key) + seq![
                nixos_install_model(
                    c,
                    "install NixOS flake after provisioning host identity"@,
                    "--flake"@,
                    flake,
                ),
            ]
        } else {
            seq![disk_install_model(c, flake)]
        },
    }
}

/// The closing steps: disarming the rollback hook, then the final reboot.
pub open spec fn closing_phase(c: SshCommand) -> Seq<CommandModel> {
    (if c.identity_rollback_hook is Some {
        seq![disarm_model()]
    } else {
        Seq::empty()
    }) + (if !c.no_final_reboot {
        seq![reboot_model(c)]
    } else {
        Seq::empty()
    })
}

/// All commands of the plan, in order.
pub open spec fn plan_commands(
    c: SshCommand,
    public_key: Option<Seq<char>>,
    identity_host: Option<Seq<char>>,
    append: Seq<char>,
    flake: Seq<char>,
) -> Seq<CommandModel> {
    identity_prefix(c, identity_host, public_key) + kexec_phase(c, append) + staging_phase(c)
        + install_phase(c, public_key, flake) + closing_phase(c)
}

fn kexec_phase_commands(command: &SshCommand, append: &str) -> (res: Vec<PlanCommand>)
    ensures
        res.deep_view() == kexec_phase(*command, append@),
{
    let mut v: Vec<PlanCommand> = Vec::new();
    v.push(preflight_command(command));
    v.push(stage_kexec_command(command));
    v.push(kexec_command(command, append));
    v.push(await_command(command));
    v.push(stage_install_command(command));
    assert(v.deep_view() =~= kexec_phase(*command, append@));
    v
}

#[verifier::rlimit(40)]
fn staging_phase_commands(command: &SshCommand) -> (res: Vec<PlanCommand>)
    ensures
        res.deep_view() == staging_phase(*command),
{
    let mut v: Vec<PlanCommand> = Vec::new();
    if let Some(src) = &command.flake_source {
        let remote = workdir_path(command, "/flake-source");
        v.push(stage_flake_source_command(command, src.as_str(), remote.as_str()));
    }
    let ghost a = v.deep_view();
    extend_commands(&mut v, installer_known_hosts_commands(command));
    let ghost b = v.deep_view();
    let up = upload_spec_command(command);
    let ap = disk_apply_command(command);
    let ghost tail = seq![up@, ap@];
    v.push(up);
    v.push(ap);
    assert(v.deep_view() =~= b + tail);
    v
}

fn system_install_commands(command: &SshCommand, public_key: &Option<String>, system: &str) -> (res:
    Vec<PlanCommand>)
    requires
        command.system matches Some(s) && s@ == system@,
    ensures
        res.deep_view() == install_phase(*command, public_key.deep_view(), Seq::empty()),
{
    let mut v: Vec<PlanCommand> = Vec::new();
    v.push(mount_command(command));
    let ghost a = v.deep_view();
    extend_commands(&mut v, host_identity_commands(command, public_key));
    let ghost b = v.deep_view();
    let copy = copy_system_command(command, system);
    let inst = nixos_install_command(
        command,
        "install prebuilt NixOS system closure",
        "--system",
        system,
    );
    let ghost tail = seq![copy@, inst@];
    v.push(copy);
    v.push(inst);
    assert(v.deep_view() =~= b + tail);
    v
}

fn identity_install_commands(command: &SshCommand, public_key: &Option<String>, flake: &str) -> (res:
    Vec<PlanCommand>)
    requires
        command.system is None,
        has_identity(*command),
    ensures
        res.deep_view() == install_phase(*command, public_key.deep_view(), flake@),
{
    let mut v: Vec<PlanCommand> = Vec::new();
    v.push(mount_command(command));
    extend_commands(&mut v, host_identity_commands(command, public_key));
    let ghost b = v.deep_view();
    let inst = nixos_install_command(
        command,
        "install NixOS flake after provisioning host identity",
        "--flake",
        flake,
    );
    let ghost iv = inst@;
    v.push(inst);
    assert(v.deep_view() =~= b.push(iv));
    v
}

fn install_phase_commands(command: &SshCommand, public_key: &Option<String>, flake: &str) -> (res:
    Vec<PlanCommand>)
    ensures
        res.deep_view() == install_phase(*command, public_key.deep_view(), flake@),
{
    if let Some(system) = &command.system {
        system_install_commands(command, public_key, system.as_str())
    } else if has_host_identity(command) {
        identity_install_commands(command, public_key, flake)
    } else {
        let mut v: Vec<PlanCommand> = Vec::new();
        v.push(disk_install_command(command, flake));
        assert(v.deep_view() =~= install_phase(*command, public_key.deep_view(), flake@));
        v
    }
}

fn closing_phase_commands(command: &SshCommand) -> (res: Vec<PlanCommand>)
    ensures
        res.deep_view() == closing_phase(*command),
{
    let mut v: Vec<PlanCommand> = Vec::new();
    if command.identity_rollback_hook.is_some() {
        v.push(disarm_identity_rollback_command());
    }
    let ghost a = v.deep_view();
    if !command.no_final_reboot {
        v.push(reboot_command(command));
    }
    assert(v.deep_view() =~= closing_phase(*command));
    v
}

/// Appends `more` to `v`.
fn extend_commands(v: &mut Vec<PlanCommand>, more: Vec<PlanCommand>)
    ensures
        final(v).deep_view() == old(v).deep_view() + more.deep_view(),
{
    let mut more = more;
    let ghost m = more.deep_view();
    v.append(&mut more);
    assert(final(v).deep_view() =~= old(v).deep_view() + m);
}

// ---------------------------------------------------------------------------
// Warnings
// ---------------------------------------------------------------------------

/// The warnings of a plan.
pub open spec fn plan_warnings(c: SshCommand) -> Seq<Seq<char>> {
    seq![
        "kexec replaces the running kernel immediately; keep console or power access available"@,
        "disk-nix apply and nixos-install are destructive when the install spec formats disks"@,
        "the kexec installer environment must boot with SSH, Nix, kexec-tools, and network access"@,
        strategy_warning(strategy_of(c)),
    ] + (if c.host_key is Some {
        seq![
            "host keys passed with --host-key are deploy-time secrets; keep private keys outside flakes and the Nix store"@,
        ]
    } else {
        Seq::empty()
    }) + (if c.generate_host_key {
        seq![
            "generated host keys are temporary local secrets; the rendered script removes the local private key on success or failure"@,
        ]
    } else {
        Seq::empty()
    }) + (if c.identity_hook is Some {
        seq![
            "identity hooks can mutate local secret metadata; hooks must be idempotent and should not print private key material"@,
        ]
    } else {
        Seq::empty()
    }) + (if c.identity_rollback_hook is Some {
        seq![
            "identity rollback hooks run on deployment failure and should undo external side effects created by the identity hook"@,
        ]
    } else {
        Seq::empty()
    })
}

fn push_if(v: &mut Vec<String>, cond: bool, text: &str)
    ensures
        final(v).deep_view() == old(v).deep_view() + (if cond {
            seq![text@]
        } else {
            Seq::empty()
        }),
{
    let ghost before = v.deep_view();
    if cond {
        v.push(owned(text));
    }
    assert(v.deep_view() =~= before + (if cond {
        seq![text@]
    } else {
        Seq::<Seq<char>>::empty()
    }));
}

fn plan_warning_list(command: &SshCommand) -> (res: Vec<String>)
    ensures
        res.deep_view() == plan_warnings(*command),
{
    let mut v: Vec<String> = Vec::new();
    v.push(owned("kexec replaces the running kernel immediately; keep console or power access available"));
    v.push(owned("disk-nix apply and nixos-install are destructive when the install spec formats disks"));
    v.push(owned("the kexec installer environment must boot with SSH, Nix, kexec-tools, and network access"));
    v.push(owned(install_strategy_warning(install_strategy(command))));
    push_if(&mut v, command.host_key.is_some(), "host keys passed with --host-key are deploy-time secrets; keep private keys outside flakes and the Nix store");
    push_if(&mut v, command.generate_host_key, "generated host keys are temporary local secrets; the rendered script removes the local private key on success or failure");
    push_if(&mut v, command.identity_hook.is_some(), "identity hooks can mutate local secret metadata; hooks must be idempotent and should not print private key material");
    push_if(&mut v, command.identity_rollback_hook.is_some(), "identity rollback hooks run on deployment failure and should undo external side effects created by the identity hook");
    assert(v.deep_view() =~= plan_warnings(*command));
    v
}


// ---------------------------------------------------------------------------
// Checks made before planning
// ---------------------------------------------------------------------------

/// The first of `files` that is not a regular file.
pub open spec fn first_missing_file(files: Seq<Seq<char>>, probes: Seq<PathProbe>) -> Option<
    Seq<char>,
>
    decreases files.len(),
{
    if files.len() == 0 {
        None
    } else if !is_file(probes, files[0]) {
        Some(files[0])
    } else {
        first_missing_file(files.skip(1), probes)
    }
}

/// The refusal of the checks on local paths and the shape of the options
/// that come before the public host key is looked for, in the order they
/// are made.
pub open spec fn precheck_error(c: SshCommand, probes: Seq<PathProbe>) -> Option<Seq<char>> {
    if !is_file(probes, c.disk_spec@) {
        Some(missing_file_message("disk spec"@, c.disk_spec@))
    } else if !is_file(probes, c.kexec_kernel@) {
        Some(missing_file_message("kexec kernel"@, c.kexec_kernel@))
    } else if !is_file(probes, c.kexec_initrd@) {
        Some(missing_file_message("kexec initrd"@, c.kexec_initrd@))
    } else if !c.target@.contains('@') {
        Some("SSH target should include a user, for example root@192.0.2.10"@)
    } else if !(c.target_root@.len() > 0 && c.target_root@[0] == '/') || !(c.remote_workdir@.len()
        > 0 && c.remote_workdir@[0] == '/') {
        Some("target root and remote workdir must be absolute paths"@)
    } else if c.flake_source is Some && !is_dir(probes, c.flake_source.deep_view().unwrap()) {
        Some("flake source is not a directory: "@ + c.flake_source.deep_view().unwrap())
    } else if first_missing_file(c.installer_known_hosts_files.deep_view(), probes) is Some {
        Some(
            missing_file_message(
                "installer known_hosts file"@,
                first_missing_file(c.installer_known_hosts_files.deep_view(), probes).unwrap(),
            ),
        )
    } else if c.system is Some && !crate::facts::path_present(
        probes,
        c.system.deep_view().unwrap(),
    ) {
        Some(missing_path_message("system closure"@, c.system.deep_view().unwrap()))
    } else if c.host_key is Some && c.generate_host_key {
        Some("--host-key and --generate-host-key are mutually exclusive"@)
    } else if c.host_key is None && c.host_key_public is Some {
        Some("--host-key-public requires --host-key"@)
    } else if c.host_key is Some && !is_file(probes, c.host_key.deep_view().unwrap()) {
        Some(missing_file_message("host key"@, c.host_key.deep_view().unwrap()))
    } else {
        None
    }
}

/// The refusal of combinations of options that select conflicting workflows.
pub open spec fn combination_error(c: SshCommand) -> Option<Seq<char>> {
    if c.system is Some && c.flake_source is Some {
        Some(
            "--system and --flake-source select different install strategies; use --system for a prebuilt closure or --flake-source for installer-side flake install"@,
        )
    } else if c.system is Some && c.identity_hook is Some {
        Some(
            "--identity-hook cannot update secrets inside an already built --system closure; run the hook before building --system or use --flake-source"@,
        )
    } else if c.identity_hook is Some && !has_identity(c) {
        Some("--identity-hook requires --host-key or --generate-host-key"@)
    } else if c.identity_rollback_hook is Some && c.identity_hook is None {
        Some("--identity-rollback-hook requires --identity-hook"@)
    } else {
        None
    }
}

fn message(text: &str) -> (res: AppError)
    ensures
        res.text() == text@,
{
    AppError::Message(owned(text))
}

fn require_known_hosts_files(command: &SshCommand, probes: &Vec<PathProbe>) -> (res: Result<
    (),
    AppError,
>)
    ensures
        match first_missing_file(command.installer_known_hosts_files.deep_view(), probes@) {
            Some(p) => res matches Err(e) && e.text() == missing_file_message(
                "installer known_hosts file"@,
                p,
            ),
            None => res is Ok,
        },
{
    let ghost files = command.installer_known_hosts_files.deep_view();
    let mut i: usize = 0;
    assert(files.skip(0) =~= files);
    while i < command.installer_known_hosts_files.len()
        invariant
            files == command.installer_known_hosts_files.deep_view(),
            0 <= i <= files.len(),
            first_missing_file(files, probes@) == first_missing_file(files.skip(i as int), probes@),
        decreases files.len() - i,
    {
        assert(files.skip(i as int)[0] == files[i as int]);
        match require_file(
            "installer known_hosts file",
            command.installer_known_hosts_files[i].as_str(),
            probes,
        ) {
            Ok(()) => {},
            Err(e) => {
                return Err(e);
            },
        }
        assert(files.skip(i as int).skip(1) =~= files.skip(i + 1));
        i += 1;
    }
    Ok(())
}

fn precheck(command: &SshCommand, probes: &Vec<PathProbe>) -> (res: Result<(), AppError>)
    ensures
        match precheck_error(*command, probes@) {
            Some(m) => res matches Err(e) && e.text() == m,
            None => res is Ok,
        },
{
    match require_file("disk spec", command.disk_spec.as_str(), probes) {
        Ok(()) => {},
        Err(e) => {
            return Err(e);
        },
    }
    match require_file("kexec kernel", command.kexec_kernel.as_str(), probes) {
        Ok(()) => {},
        Err(e) => {
            return Err(e);
        },
    }
    match require_file("kexec initrd", command.kexec_initrd.as_str(), probes) {
        Ok(()) => {},
        Err(e) => {
            return Err(e);
        },
    }
    if !crate::text::contains_char(command.target.as_str(), '@') {
        return Err(message("SSH target should include a user, for example root@192.0.2.10"));
    }
    if !crate::text::starts_with_char(command.target_root.as_str(), '/')
        || !crate::text::starts_with_char(command.remote_workdir.as_str(), '/') {
        return Err(message("target root and remote workdir must be absolute paths"));
    }
    if let Some(flake_source) = &command.flake_source {
        if !path_is_dir(probes, flake_source.as_str()) {
            let mut m = owned("flake source is not a directory: ");
            m.append(flake_source.as_str());
            return Err(AppError::Message(m));
        }
    }
    match require_known_hosts_files(command, probes) {
        Ok(()) => {},
        Err(e) => {
            return Err(e);
        },
    }
    if let Some(system) = &command.system {
        match require_existing_path("system closure", system.as_str(), probes) {
            Ok(()) => {},
            Err(e) => {
                return Err(e);
            },
        }
    }
    if command.host_key.is_some() && command.generate_host_key {
        return Err(message("--host-key and --generate-host-key are mutually exclusive"));
    }
    if command.host_key.is_none() && command.host_key_public.is_some() {
        return Err(message("--host-key-public requires --host-key"));
    }
    if let Some(host_key) = &command.host_key {
        match require_file("host key", host_key.as_str(), probes) {
            Ok(()) => {},
            Err(e) => {
                return Err(e);
            },
        }
    }
    Ok(())
}

fn check_combinations(command: &SshCommand) -> (res: Result<(), AppError>)
    ensures
        match combination_error(*command) {
            Some(m) => res matches Err(e) && e.text() == m,
            None => res is Ok,
        },
{
    if command.system.is_some() && command.flake_source.is_some() {
        return Err(message("--system and --flake-source select different install strategies; use --system for a prebuilt closure or --flake-source for installer-side flake install"));
    }
    if command.system.is_some() && command.identity_hook.is_some() {
        return Err(message("--identity-hook cannot update secrets inside an already built --system closure; run the hook before building --system or use --flake-source"));
    }
    if command.identity_hook.is_some() && !has_host_identity(command) {
        return Err(message("--identity-hook requires --host-key or --generate-host-key"));
    }
    if command.identity_rollback_hook.is_some() && command.identity_hook.is_none() {
        return Err(message("--identity-rollback-hook requires --identity-hook"));
    }
    Ok(())
}

// ---------------------------------------------------------------------------
// The plan
// ---------------------------------------------------------------------------

/// The plan built from its derived values.
pub open spec fn plan_model(
    c: SshCommand,
    public_key: Option<Seq<char>>,
    identity_host: Option<Seq<char>>,
    append: Seq<char>,
    flake: Seq<char>,
) -> PlanModel {
    PlanModel {
        target: c.target@,
        flake: c.flake@,
        install_flake: flake,
        install_strategy: strategy_of(c),
        install_strategy_summary: strategy_summary(strategy_of(c)),
        flake_source: c.flake_source.deep_view(),
        installer_known_hosts_files: c.installer_known_hosts_files.deep_view(),
        system: c.system.deep_view(),
        disk_spec: c.disk_spec@,
        disk_nix: c.disk_nix@,
        disk_nix_command: c.disk_nix_command.deep_view(),
        host_key: c.host_key.deep_view(),
        host_key_public: public_key,
        generate_host_key: c.generate_host_key,
        identity_hook: c.identity_hook.deep_view(),
        identity_rollback_hook: c.identity_rollback_hook.deep_view(),
        identity_host: identity_host,
        ssh_tty: c.ssh_tty,
        target_root: c.target_root@,
        remote_workdir: c.remote_workdir@,
        commands: plan_commands(c, public_key, identity_host, append, flake),
        warnings: plan_warnings(c),
    }
}

/// What planning a deployment gives: the first refusal in the order the
/// checks are made, else the plan.
pub open spec fn plan_outcome(c: SshCommand, f: LocalFacts) -> Result<PlanModel, Seq<char>> {
    match precheck_error(c, f.probes@) {
        Some(m) => Err(m),
        None => match host_key_public_outcome(c, f.probes@) {
            Err(m) => Err(m),
            Ok(public_key) => match combination_error(c) {
                Some(m) => Err(m),
                None => match identity_host_outcome(c) {
                    Err(m) => Err(m),
                    Ok(identity_host) => match kexec_append_outcome(c, f.kexec_boot) {
                        Err(m) => Err(m),
                        Ok(append) => match install_flake_outcome(c) {
                            Err(m) => Err(m),
                            Ok(flake) => Ok(
                                plan_model(c, public_key, identity_host, append, flake),
                            ),
                        },
                    },
                },
            },
        },
    }
}

fn assemble_plan(
    command: &SshCommand,
    public_key: Option<String>,
    identity_host: Option<String>,
    append: &str,
    flake: String,
) -> (res: DeploymentPlan)
    ensures
        res@ == plan_model(
            *command,
            public_key.deep_view(),
            identity_host.deep_view(),
            append@,
            flake@,
        ),
{
    let mut commands = identity_prefix_commands(command, &identity_host, &public_key);
    extend_commands(&mut commands, kexec_phase_commands(command, append));
    extend_commands(&mut commands, staging_phase_commands(command));
    extend_commands(&mut commands, install_phase_commands(command, &public_key, flake.as_str()));
    extend_commands(&mut commands, closing_phase_commands(command));
    let strategy = install_strategy(command);
    let plan = DeploymentPlan {
        target: owned(command.target.as_str()),
        flake: owned(command.flake.as_str()),
        install_flake: flake,
        install_strategy: strategy,
        install_strategy_summary: owned(install_strategy_summary(strategy)),
        flake_source: crate::text::copy_opt(&command.flake_source),
        installer_known_hosts_files: crate::text::copy_strings(
            &command.installer_known_hosts_files,
        ),
        system: crate::text::copy_opt(&command.system),
        disk_spec: owned(command.disk_spec.as_str()),
        disk_nix: owned(command.disk_nix.as_str()),
        disk_nix_command: crate::text::copy_opt(&command.disk_nix_command),
        host_key: crate::text::copy_opt(&command.host_key),
        host_key_public: public_key,
        generate_host_key: command.generate_host_key,
        identity_hook: crate::text::copy_opt(&command.identity_hook),
        identity_rollback_hook: crate::text::copy_opt(&command.identity_rollback_hook),
        identity_host: identity_host,
        ssh_tty: command.ssh_tty,
        target_root: owned(command.target_root.as_str()),
        remote_workdir: owned(command.remote_workdir.as_str()),
        commands: commands,
        warnings: plan_warning_list(command),
    };
    plan
}

/// Builds the deployment plan for `command`, given what the local machine
/// reports about the files it names.
pub fn build_plan(command: &SshCommand, facts: &LocalFacts) -> (res: Result<DeploymentPlan, AppError>)
    ensures
        crate::model::outcome(res) == plan_outcome(*command, *facts),
{
    match precheck(command, &facts.probes) {
        Ok(()) => {},
        Err(e) => {
            return Err(e);
        },
    }
    let public_key = match effective_host_key_public(command, &facts.probes) {
        Ok(p) => p,
        Err(e) => {
            return Err(e);
        },
    };
    match check_combinations(command) {
        Ok(()) => {},
        Err(e) => {
            return Err(e);
        },
    }
    let identity_host = match effective_identity_host(command) {
        Ok(h) => h,
        Err(e) => {
            return Err(e);
        },
    };
    let append = match effective_kexec_append(command, &facts.kexec_boot) {
        Ok(a) => a,
        Err(e) => {
            return Err(e);
        },
    };
    let remote_flake_source = workdir_path(command, "/flake-source");
    let flake = match install_flake(command, remote_flake_source.as_str()) {
        Ok(f) => f,
        Err(e) => {
            return Err(e);
        },
    };
    Ok(assemble_plan(command, public_key, identity_host, append.as_str(), flake))
}

} // verus!


