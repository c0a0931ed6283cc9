use nixos_kexec::facts::append_pub_suffix;
use nixos_kexec::{
    build_installer_plan, build_plan, nix_string, render_script, InstallStrategy,
    InstallerBuildCommand, InstallerFacts, KexecBootSource, LocalFacts, PathProbe, Phase,
    SshCommand,
};

const TEMP: &str = "/tmp/nixos-kexec-fixture";
const DEFAULT_DISK_NIX: &str = "github:hermetic-foundation/disk-nix#disk-nix";
const DEFAULT_DISK_NIX_FLAKE: &str = "github:hermetic-foundation/disk-nix";
const DEFAULT_NIXOS_KEXEC_FLAKE: &str = "github:hermetic-foundation/nixos-kexec";
const DEFAULT_NIXPKGS_FLAKE: &str = "github:NixOS/nixpkgs/nixos-unstable";

fn join(name: &str) -> String {
    format!("{TEMP}/{name}")
}

fn file(path: &str) -> PathProbe {
    PathProbe { path: path.to_string(), is_file: true, is_dir: false, exists: true }
}

fn dir(path: &str) -> PathProbe {
    PathProbe { path: path.to_string(), is_file: false, is_dir: true, exists: true }
}

/// The temporary directory with the disk spec, kernel and initrd written into it.
fn fixture_facts() -> LocalFacts {
    LocalFacts {
        probes: vec![
            dir(TEMP),
            file(&join("install.json")),
            file(&join("kernel")),
            file(&join("initrd")),
        ],
        kexec_boot: KexecBootSource::Unreadable(
            join("kexec-boot"),
            "No such file or directory (os error 2)".to_string(),
        ),
    }
}

fn fixture_command() -> SshCommand {
    SshCommand {
        target: "root@192.0.2.10".to_string(),
        flake: "github:example/flake#host".to_string(),
        flake_source: None,
        installer_known_hosts_files: Vec::new(),
        system: None,
        disk_spec: join("install.json"),
        kexec_kernel: join("kernel"),
        kexec_initrd: join("initrd"),
        kexec_append: Some("console=ttyS0".to_string()),
        disk_nix: DEFAULT_DISK_NIX.to_string(),
        disk_nix_command: None,
        host_key: None,
        host_key_public: None,
        generate_host_key: false,
        identity_hook: None,
        identity_rollback_hook: None,
        identity_host: None,
        ssh_tty: false,
        target_root: "/mnt".to_string(),
        remote_workdir: "/tmp/nixos-kexec".to_string(),
        ssh_options: vec!["StrictHostKeyChecking=accept-new".to_string()],
        script_out: None,
        json: false,
        no_final_reboot: false,
    }
}

fn fixture_installer_command() -> (InstallerBuildCommand, InstallerFacts) {
    let key_file = join("id_ed25519.pub");
    let command = InstallerBuildCommand {
        authorized_key_files: vec![key_file.clone()],
        authorized_keys: vec!["ssh-ed25519 AAAAC3NzaC1lZDI1NTE5AAAAIDirect direct".to_string()],
        network_manager_profiles_json: None,
        system: "x86_64-linux".to_string(),
        nixos_kexec_flake: DEFAULT_NIXOS_KEXEC_FLAKE.to_string(),
        disk_nix_flake: DEFAULT_DISK_NIX_FLAKE.to_string(),
        nixpkgs_flake: DEFAULT_NIXPKGS_FLAKE.to_string(),
        out_link: Some(join("installer-result")),
        json: false,
    };
    let facts = InstallerFacts {
        probes: vec![dir(TEMP), file(&key_file)],
        authorized_key_file_texts: vec![Ok(
            "ssh-ed25519 AAAAC3NzaC1lZDI1NTE5AAAAITest nixos-kexec-test\n".to_string(),
        )],
    };
    (command, facts)
}

#[test]
fn ssh_plan_contains_kexec_disk_nix_install_and_reboot_phases() {
    let plan = build_plan(&fixture_command(), &fixture_facts()).unwrap();

    assert_eq!(plan.commands.len(), 9);
    assert_eq!(plan.install_strategy, InstallStrategy::InstallerBuildsFlake);
    assert!(plan.install_strategy_summary.contains("installer evaluates the flake"));
    assert!(plan.commands.iter().any(|command| {
        command.phase == Phase::Kexec
            && command.mutates
            && command.argv.iter().any(|arg| arg.contains("kexec -l"))
            && command.argv.iter().any(|arg| arg.contains("kexec -e"))
            && !command.argv.iter().any(|arg| arg.contains("systemctl kexec"))
    }));
    assert!(plan.commands.iter().any(|command| {
        command.phase == Phase::DiskNixApply
            && command.argv.iter().any(|arg| arg.contains("disk-nix-install.json"))
            && command.argv.iter().any(|arg| arg.contains("apply --spec"))
    }));
    assert!(plan.commands.iter().any(|command| {
        command.phase == Phase::NixosInstall
            && command.argv.iter().any(|arg| arg.contains("install nixos"))
    }));
    assert_eq!(plan.commands.last().unwrap().phase, Phase::Reboot);
}

#[test]
fn rendered_script_keeps_commands_reviewable() {
    let plan = build_plan(&fixture_command(), &fixture_facts()).unwrap();
    let script = render_script(&plan);

    assert!(script.starts_with("#!/usr/bin/env bash\nset -euo pipefail"));
    assert!(script.contains("INSTALL STRATEGY: installer evaluates the flake and builds or downloads"));
    assert!(script.contains("WARNING: kexec replaces the running kernel immediately"));
    assert!(script.contains("WARNING: no system closure is copied by nixos-kexec"));
    assert!(script.contains("ssh -o StrictHostKeyChecking=accept-new root@192.0.2.10"));
    assert!(script.contains("timeout 120s ssh"));
    assert!(script.contains("set +e; output=$(timeout 120s ssh"));
    assert!(script.contains("[ \"$status\" -eq 255 ] || [ \"$status\" -eq 124 ]"));
    assert!(script.contains("while :; do if timeout 15s ssh"));
    assert!(script.contains("sync; kexec -e"));
    assert!(!script.contains("systemctl kexec"));
    assert!(script.contains("nix --extra-experimental-features"));
    assert!(script.contains("github:hermetic-foundation/disk-nix#disk-nix"));
}

#[test]
fn plan_requires_explicit_user_in_ssh_target() {
    let mut command = fixture_command();
    command.target = "192.0.2.10".to_string();

    let error = build_plan(&command, &fixture_facts()).unwrap_err().to_string();

    assert!(error.contains("SSH target should include a user"));
}

#[test]
fn plan_can_use_preinstalled_disk_nix_command_without_final_reboot() {
    let mut command = fixture_command();
    command.disk_nix_command = Some("/run/current-system/sw/bin/disk-nix".to_string());
    command.no_final_reboot = true;

    let plan = build_plan(&command, &fixture_facts()).unwrap();

    assert_eq!(plan.commands.len(), 8);
    assert_eq!(plan.commands.last().unwrap().phase, Phase::NixosInstall);
    assert!(plan.commands.iter().any(|command| {
        command.phase == Phase::DiskNixApply
            && command
                .argv
                .iter()
                .any(|arg| arg.contains("/run/current-system/sw/bin/disk-nix apply"))
    }));
    assert!(plan.commands.iter().all(|command| command.phase != Phase::Reboot));
}

#[test]
fn ssh_tty_only_applies_to_mutating_ssh_commands() {
    let mut command = fixture_command();
    command.ssh_tty = true;

    let plan = build_plan(&command, &fixture_facts()).unwrap();

    assert!(plan.ssh_tty);
    assert!(plan.commands.iter().any(|command| {
        command.phase == Phase::DiskNixApply
            && command.argv.first().is_some_and(|arg| arg == "ssh")
            && command.argv.iter().any(|arg| arg == "-tt")
    }));
    assert!(plan.commands.iter().any(|command| {
        command.phase == Phase::Preflight
            && command.argv.first().is_some_and(|arg| arg == "ssh")
            && !command.argv.iter().any(|arg| arg == "-tt")
    }));
    assert!(plan.commands.iter().any(|command| {
        command.phase == Phase::Kexec && command.argv.iter().all(|arg| !arg.contains("ssh -tt"))
    }));
    assert!(plan.commands.iter().any(|command| {
        command.phase == Phase::AwaitInstaller
            && command.argv.iter().all(|arg| !arg.contains("ssh -tt"))
    }));
}

#[test]
fn local_flake_source_is_staged_and_used_for_install() {
    let mut facts = fixture_facts();
    facts.probes.push(file(&join("flake.nix")));
    let mut command = fixture_command();
    command.flake = "path:/home/me/flake#host".to_string();
    command.flake_source = Some(TEMP.to_string());
    command.no_final_reboot = true;

    let plan = build_plan(&command, &facts).unwrap();

    assert_eq!(plan.install_strategy, InstallStrategy::StageLocalFlake);
    assert_eq!(plan.install_flake, "path:/tmp/nixos-kexec/flake-source#host");
    assert!(plan.commands.iter().any(|command| {
        command.phase == Phase::StageInstall
            && command
                .argv
                .iter()
                .any(|arg| arg.contains("tar -C") && arg.contains("flake-source"))
    }));
    assert!(plan.commands.iter().any(|command| {
        command.phase == Phase::NixosInstall
            && command
                .argv
                .iter()
                .any(|arg| arg.contains("--flake") && arg.contains("flake-source#host"))
    }));
}

#[test]
fn local_flake_source_requires_host_fragment() {
    let mut command = fixture_command();
    command.flake = "path:/home/me/flake".to_string();
    command.flake_source = Some(TEMP.to_string());

    let error = build_plan(&command, &fixture_facts()).unwrap_err().to_string();

    assert!(error.contains("requires --flake to include a #host fragment"));
}

#[test]
fn installer_known_hosts_are_staged_before_flake_fetches() {
    let known_hosts = join("known_hosts");
    let mut facts = fixture_facts();
    facts.probes.push(file(&known_hosts));
    let mut command = fixture_command();
    command.installer_known_hosts_files = vec![known_hosts.clone()];
    command.no_final_reboot = true;

    let plan = build_plan(&command, &facts).unwrap();
    let script = render_script(&plan);

    assert_eq!(plan.installer_known_hosts_files, vec![known_hosts.clone()]);
    assert!(script.contains("installer-known-hosts-0"));
    assert!(script.contains("/root/.ssh/known_hosts"));
    assert!(script.contains("/etc/ssh/ssh_known_hosts"));

    let known_hosts_index = plan
        .commands
        .iter()
        .position(|command| command.description == "install SSH known_hosts into the kexec installer")
        .unwrap();
    let disk_apply_index = plan
        .commands
        .iter()
        .position(|command| command.phase == Phase::DiskNixApply)
        .unwrap();
    let nixos_install_index = plan
        .commands
        .iter()
        .position(|command| command.phase == Phase::NixosInstall)
        .unwrap();

    assert!(known_hosts_index < disk_apply_index);
    assert!(known_hosts_index < nixos_install_index);
}

#[test]
fn installer_known_hosts_file_must_exist() {
    let mut command = fixture_command();
    command.installer_known_hosts_files = vec![join("missing-known-hosts")];

    let error = build_plan(&command, &fixture_facts()).unwrap_err().to_string();

    assert!(error.contains("installer known_hosts file does not exist"));
}

#[test]
fn system_and_flake_source_are_mutually_exclusive_strategies() {
    let system = join("system");
    let mut facts = fixture_facts();
    facts.probes.push(file(&join("flake.nix")));
    facts.probes.push(dir(&system));
    let mut command = fixture_command();
    command.flake_source = Some(TEMP.to_string());
    command.system = Some(system);

    let error = build_plan(&command, &facts).unwrap_err().to_string();

    assert!(error.contains("--system and --flake-source select different install strategies"));
}

#[test]
fn kexec_append_is_inferred_from_sibling_kexec_boot() {
    let mut command = fixture_command();
    command.kexec_append = None;
    let mut facts = fixture_facts();
    facts.kexec_boot = KexecBootSource::Script(
        join("kexec-boot"),
        r#"kexec --load ./bzImage \
  --initrd=./initrd.gz \
  --command-line "init=/nix/store/example-system/init console=ttyS0 panic=1"
"#
        .to_string(),
    );

    let plan = build_plan(&command, &facts).unwrap();

    assert!(plan.commands.iter().any(|command| {
        command.phase == Phase::Kexec
            && command
                .argv
                .iter()
                .any(|arg| arg.contains("init=/nix/store/example-system/init console=ttyS0 panic=1"))
    }));
}

#[test]
fn kexec_append_requires_explicit_value_when_no_kexec_boot_exists() {
    let mut command = fixture_command();
    command.kexec_append = None;

    let error = build_plan(&command, &fixture_facts()).unwrap_err().to_string();

    assert!(error.contains("could not infer kexec command line"));
    assert!(error.contains("pass --kexec-append explicitly"));
}

#[test]
fn prebuilt_system_mounts_copies_and_installs_without_remote_flake_eval() {
    let system = join("system");
    let mut facts = fixture_facts();
    facts.probes.push(dir(&system));
    let mut command = fixture_command();
    command.system = Some(system.clone());
    command.no_final_reboot = true;

    let plan = build_plan(&command, &facts).unwrap();

    assert_eq!(plan.system, Some(system.clone()));
    assert_eq!(plan.install_strategy, InstallStrategy::CopyPrebuiltSystem);
    assert!(plan.install_strategy_summary.contains("copies a prebuilt system closure"));
    assert!(plan.commands.iter().any(|command| {
        command.phase == Phase::NixosInstall
            && command
                .argv
                .iter()
                .any(|arg| arg.contains("install mount") && !arg.contains("install nixos"))
    }));
    assert!(plan.commands.iter().any(|command| {
        command.phase == Phase::CopySystem
            && command.argv.iter().any(|arg| {
                arg.contains("nix copy --no-check-sigs --to")
                    && arg.contains("--no-check-sigs")
                    && arg.contains("ssh-ng://root@192.0.2.10")
                    && arg.contains("remote-store=local%3Froot%3D%2Fmnt")
                    && arg.contains("NIX_SSHOPTS=")
            })
    }));
    assert!(plan.commands.iter().any(|command| {
        command.phase == Phase::NixosInstall
            && command.argv.iter().any(|arg| {
                arg.contains("nixos-install --root /mnt --system") && arg.contains("--no-channel-copy")
            })
    }));
    assert!(!plan
        .commands
        .iter()
        .any(|command| command.argv.iter().any(|arg| arg.contains("install nixos"))));
}

#[test]
fn host_key_is_staged_after_mount_and_before_install() {
    let host_key = join("ssh_host_ed25519_key");
    let mut facts = fixture_facts();
    facts.probes.push(file(&host_key));
    facts.probes.push(file(&append_pub_suffix(&host_key)));
    let mut command = fixture_command();
    command.host_key = Some(host_key.clone());
    command.no_final_reboot = true;

    let plan = build_plan(&command, &facts).unwrap();

    assert_eq!(plan.host_key, Some(host_key.clone()));
    assert_eq!(plan.host_key_public, Some(append_pub_suffix(&host_key)));
    assert!(plan.warnings.iter().any(|warning| warning.contains("deploy-time secrets")));
    assert!(plan.commands.iter().any(|command| {
        command.phase == Phase::NixosInstall
            && command.argv.iter().any(|arg| arg.contains("install mount"))
    }));
    assert!(plan.commands.iter().any(|command| {
        command.phase == Phase::StageHostIdentity
            && command.argv.iter().any(|arg| arg.contains("ssh_host_ed25519_key"))
            && command.argv.iter().any(|arg| arg.contains("chmod 0600"))
    }));
    assert!(plan.commands.iter().any(|command| {
        command.phase == Phase::StageHostIdentity
            && command.argv.iter().any(|arg| {
                arg.contains("install -o root -g root -m 0600")
                    && arg.contains("/mnt/etc/ssh/ssh_host_ed25519_key")
                    && arg.contains("rm -rf /tmp/nixos-kexec/host-identity")
            })
    }));
    assert!(plan.commands.iter().any(|command| {
        command.phase == Phase::NixosInstall
            && command.argv.iter().any(|arg| {
                arg.contains("nixos-install --root /mnt --flake")
                    && arg.contains("github:example/flake#host")
            })
    }));
}

#[test]
fn host_key_public_requires_private_host_key() {
    let public_key = join("ssh_host_ed25519_key.pub");
    let mut facts = fixture_facts();
    facts.probes.push(file(&public_key));
    let mut command = fixture_command();
    command.host_key_public = Some(public_key);

    let error = build_plan(&command, &facts).unwrap_err().to_string();

    assert!(error.contains("--host-key-public requires --host-key"));
}

#[test]
fn generated_host_key_runs_hook_and_cleans_up_local_secret() {
    let mut command = fixture_command();
    command.generate_host_key = true;
    command.identity_hook = Some("flake-os-add-age-recipient".to_string());
    command.identity_rollback_hook = Some("flake-os-add-age-recipient".to_string());
    command.no_final_reboot = true;

    let plan = build_plan(&command, &fixture_facts()).unwrap();
    let script = render_script(&plan);

    assert!(plan.generate_host_key);
    assert_eq!(plan.identity_host, Some("host".to_string()));
    assert!(script.contains("mktemp -d \"${TMPDIR:-/tmp}/nixos-kexec-host-key."));
    assert!(script.contains("trap cleanup_nixos_kexec_host_key EXIT"));
    assert!(script.contains("ssh-keygen -q -t ed25519 -N ''"));
    assert!(script.contains("NIXOS_KEXEC_SSH_PUBLIC_KEY_FILE=$NIXOS_KEXEC_HOST_KEY_PUBLIC"));
    assert!(script.contains("NIXOS_KEXEC_IDENTITY_STATE_DIR=\"$NIXOS_KEXEC_HOST_KEY_DIR\""));
    assert!(script.contains("NIXOS_KEXEC_IDENTITY_STATE_DIR=\"${NIXOS_KEXEC_IDENTITY_STATE_DIR:-}\""));
    assert!(script.contains("NIXOS_KEXEC_AGE_RECIPIENT"));
    assert!(script.contains("NIXOS_KEXEC_IDENTITY_HOOK_EVENT=apply"));
    assert!(script.contains("flake-os-add-age-recipient"));
    assert!(script.contains("nixos_kexec_identity_rollback()"));
    assert!(script.contains("NIXOS_KEXEC_IDENTITY_HOOK_EVENT=rollback"));
    assert!(script.contains("NIXOS_KEXEC_IDENTITY_ROLLBACK_ARMED=0"));
    assert!(script.contains("cleanup_nixos_kexec_host_key"));
    assert!(script.contains("< \"$NIXOS_KEXEC_HOST_KEY\""));
    assert!(script.contains("< \"$NIXOS_KEXEC_HOST_KEY_PUBLIC\""));
    assert!(script.contains("stat -c"));
    assert!(script.contains("%a"));
    assert!(script.contains("/mnt/etc/ssh/ssh_host_ed25519_key"));
    assert!(script.contains("rm -rf -- \"$NIXOS_KEXEC_HOST_KEY_DIR\""));
    assert!(plan.warnings.iter().any(|warning| warning.contains("removes the local private key")));
    assert!(plan.warnings.iter().any(|warning| warning.contains("identity rollback hooks run")));
}

#[test]
fn identity_rollback_disarms_before_final_reboot() {
    let mut command = fixture_command();
    command.generate_host_key = true;
    command.identity_hook = Some("bootstrap-machine-identity".to_string());
    command.identity_rollback_hook = Some("bootstrap-machine-identity".to_string());

    let plan = build_plan(&command, &fixture_facts()).unwrap();
    let disarm_index = plan
        .commands
        .iter()
        .position(|command| {
            command.description == "disarm identity rollback hook after successful deployment"
        })
        .unwrap();
    let reboot_index = plan
        .commands
        .iter()
        .position(|command| command.phase == Phase::Reboot)
        .unwrap();

    assert!(disarm_index < reboot_index);
}

#[test]
fn static_host_key_identity_hook_exports_state_dir() {
    let host_key = join("ssh_host_ed25519_key");
    let mut facts = fixture_facts();
    facts.probes.push(file(&host_key));
    facts.probes.push(file(&join("ssh_host_ed25519_key.pub")));
    let mut command = fixture_command();
    command.host_key = Some(host_key);
    command.identity_hook = Some("bootstrap-machine-identity".to_string());
    command.identity_rollback_hook = Some("bootstrap-machine-identity".to_string());

    let plan = build_plan(&command, &facts).unwrap();
    let script = render_script(&plan);

    assert!(script.contains(
        "NIXOS_KEXEC_IDENTITY_STATE_DIR=$(mktemp -d \"${TMPDIR:-/tmp}/nixos-kexec-identity."
    ));
    assert!(script.contains("NIXOS_KEXEC_IDENTITY_STATE_DIR=\"${NIXOS_KEXEC_IDENTITY_STATE_DIR:-}\""));
    assert!(script.contains("NIXOS_KEXEC_IDENTITY_HOOK_EVENT=rollback"));
}

#[test]
fn generated_host_key_conflicts_with_static_host_key() {
    let host_key = join("ssh_host_ed25519_key");
    let mut facts = fixture_facts();
    facts.probes.push(file(&host_key));
    let mut command = fixture_command();
    command.host_key = Some(host_key);
    command.generate_host_key = true;

    let error = build_plan(&command, &facts).unwrap_err().to_string();

    assert!(error.contains("--host-key and --generate-host-key are mutually exclusive"));
}

#[test]
fn identity_hook_requires_host_identity() {
    let mut command = fixture_command();
    command.identity_hook = Some("flake-os-add-age-recipient".to_string());

    let error = build_plan(&command, &fixture_facts()).unwrap_err().to_string();

    assert!(error.contains("--identity-hook requires --host-key or --generate-host-key"));
}

#[test]
fn identity_rollback_hook_requires_identity_hook() {
    let mut command = fixture_command();
    command.generate_host_key = true;
    command.identity_rollback_hook = Some("flake-os-add-age-recipient".to_string());

    let error = build_plan(&command, &fixture_facts()).unwrap_err().to_string();

    assert!(error.contains("--identity-rollback-hook requires --identity-hook"));
}

#[test]
fn identity_hook_rejects_prebuilt_system_ordering() {
    let system = join("system");
    let mut facts = fixture_facts();
    facts.probes.push(dir(&system));
    let mut command = fixture_command();
    command.system = Some(system);
    command.generate_host_key = true;
    command.identity_hook = Some("flake-os-add-age-recipient".to_string());

    let error = build_plan(&command, &facts).unwrap_err().to_string();

    assert!(error.contains("already built --system closure"));
}

#[test]
fn installer_plan_builds_reviewable_nix_command() {
    let (command, facts) = fixture_installer_command();

    let plan = build_installer_plan(&command, &facts).unwrap();

    assert_eq!(plan.authorized_key_count, 2);
    assert_eq!(plan.argv[0], "nix");
    assert!(plan.argv.iter().any(|arg| arg == "--impure"));
    assert!(plan.argv.iter().any(|arg| arg == &join("installer-result")));
    assert!(plan.expression.contains("examples/kexec-installer.nix"));
    assert!(plan.expression.contains("networkManagerProfiles = { };"));
    assert!(plan.expression.contains("github:hermetic-foundation/disk-nix"));
    assert!(plan.expression.contains("ssh-ed25519 AAAAC3NzaC1lZDI1NTE5AAAAITest"));
}

#[test]
fn installer_plan_can_load_network_manager_profiles_json() {
    let profiles = join("profiles.json");
    let (mut command, mut facts) = fixture_installer_command();
    facts.probes.push(file(&profiles));
    command.network_manager_profiles_json = Some(profiles.clone());

    let plan = build_installer_plan(&command, &facts).unwrap();

    assert_eq!(plan.network_manager_profiles_json, Some(profiles.clone()));
    assert!(plan.expression.contains("networkManagerProfiles = builtins.fromJSON"));
    assert!(plan.expression.contains(&profiles));
}

#[test]
fn installer_plan_requires_authorized_key() {
    let (mut command, mut facts) = fixture_installer_command();
    command.authorized_key_files = Vec::new();
    command.authorized_keys = Vec::new();
    facts.authorized_key_file_texts = Vec::new();

    let error = build_installer_plan(&command, &facts).unwrap_err().to_string();

    assert!(error.contains("requires at least one --authorized-key-file or --authorized-key"));
}

#[test]
fn nix_string_escapes_interpolation_and_quotes() {
    assert_eq!(nix_string(r#"a"b${c}\"#), r#""a\"b\${c}\\""#);
}
