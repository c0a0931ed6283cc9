use nixos_kexec::commands::render_command;
use nixos_kexec::consent::{BUILD_REFUSAL, RUN_REFUSAL};
use nixos_kexec::kexec::{kexec_boot_path, parse_kexec_boot_command_line};
use nixos_kexec::quote::{nix_list, percent_encode_query_value, shell_command, ssh_options_for_nix};
use nixos_kexec::{
    build_installer_plan, build_plan, installer_build_plan, installer_plan_text, nix_string,
    plan_text, probe_paths, render_script, run_script, shell_quote, DeploymentPlan,
    InstallStrategy, InstallerBuildCommand, InstallerFacts, InstallerRunCommand,
    KexecBootSource, LocalFacts, PathProbe, Phase, SshCommand, SshRunCommand,
};

const TEMP: &str = "/work/fixture";

fn join(name: &str) -> String {
    format!("{TEMP}/{name}")
}

fn file(path: &str) -> PathProbe {
    PathProbe { path: path.to_string(), is_file: true, is_dir: false, exists: true }
}

fn dir(path: &str) -> PathProbe {
    PathProbe { path: path.to_string(), is_file: false, is_dir: true, exists: true }
}

fn facts() -> LocalFacts {
    LocalFacts {
        probes: vec![
            dir(TEMP),
            file(&join("install.json")),
            file(&join("kernel")),
            file(&join("initrd")),
            file(&join("ssh_host_ed25519_key")),
            file(&join("ssh_host_ed25519_key.pub")),
            file(&join("known_hosts")),
            file(&join("hook.sh")),
            file(&join("rollback.sh")),
            dir(&join("flake")),
            dir("/nix/store/abc-nixos-system-host"),
        ],
        kexec_boot: KexecBootSource::NoParent,
    }
}

fn command() -> SshCommand {
    SshCommand {
        target: "root@192.0.2.10".to_string(),
        flake: "github:example/flake#host".to_string(),
        flake_source: None,
        installer_known_hosts_files: Vec::new(),
        system: None,
        disk_spec: join("install.json"),
        kexec_kernel: join("kernel"),
        kexec_initrd: join("initrd"),
        kexec_append: Some("console=ttyS0".to_string()),
        disk_nix: "github:hermetic-foundation/disk-nix#disk-nix".to_string(),
        disk_nix_command: None,
        host_key: None,
        host_key_public: None,
        generate_host_key: false,
        identity_hook: None,
        identity_rollback_hook: None,
        identity_host: None,
        ssh_tty: false,
        target_root: "/mnt".to_string(),
        remote_workdir: "/tmp/nixos-kexec".to_string(),
        ssh_options: vec!["BatchMode=yes".to_string()],
        script_out: None,
        json: false,
        no_final_reboot: false,
    }
}

fn installer_command() -> InstallerBuildCommand {
    InstallerBuildCommand {
        authorized_key_files: Vec::new(),
        authorized_keys: vec!["ssh-ed25519 AAAA operator".to_string()],
        network_manager_profiles_json: None,
        system: "x86_64-linux".to_string(),
        nixos_kexec_flake: "github:hermetic-foundation/nixos-kexec".to_string(),
        disk_nix_flake: "github:hermetic-foundation/disk-nix".to_string(),
        nixpkgs_flake: "github:NixOS/nixpkgs/nixos-unstable".to_string(),
        out_link: None,
        json: false,
    }
}

fn installer_facts() -> InstallerFacts {
    InstallerFacts { probes: vec![file(&join("profiles.json"))], authorized_key_file_texts: Vec::new() }
}

fn refusal(command: &SshCommand, facts: &LocalFacts) -> String {
    build_plan(command, facts).unwrap_err().to_string()
}

fn phases(plan: &DeploymentPlan) -> Vec<Phase> {
    plan.commands.iter().map(|c| c.phase).collect()
}

/// What a POSIX shell reads from a command line made of unquoted safe
/// characters, '...' spans and "..." spans, split at unquoted spaces.
fn read_words(line: &str) -> Vec<String> {
    let mut words = Vec::new();
    let mut cur: Option<String> = None;
    let mut chars = line.chars();
    while let Some(c) = chars.next() {
        match c {
            ' ' => {
                if let Some(w) = cur.take() {
                    words.push(w);
                }
            }
            '\'' => {
                let w = cur.get_or_insert_with(String::new);
                for q in chars.by_ref() {
                    if q == '\'' {
                        break;
                    }
                    w.push(q);
                }
            }
            '"' => {
                let w = cur.get_or_insert_with(String::new);
                for q in chars.by_ref() {
                    if q == '"' {
                        break;
                    }
                    w.push(q);
                }
            }
            other => cur.get_or_insert_with(String::new).push(other),
        }
    }
    if let Some(w) = cur {
        words.push(w);
    }
    words
}

// ---------------------------------------------------------------------------
// Workflow order
// ---------------------------------------------------------------------------

#[test]
fn default_plan_walks_the_documented_workflow() {
    let plan = build_plan(&command(), &facts()).unwrap();
    assert_eq!(
        phases(&plan),
        vec![
            Phase::Preflight,
            Phase::StageKexec,
            Phase::Kexec,
            Phase::AwaitInstaller,
            Phase::StageInstall,
            Phase::StageInstall,
            Phase::DiskNixApply,
            Phase::NixosInstall,
            Phase::Reboot,
        ]
    );
}

#[test]
fn identity_steps_come_first_and_disarm_precedes_reboot() {
    let mut c = command();
    c.generate_host_key = true;
    c.identity_hook = Some(join("hook.sh"));
    c.identity_rollback_hook = Some(join("rollback.sh"));
    let plan = build_plan(&c, &facts()).unwrap();
    let p = phases(&plan);
    assert_eq!(&p[..3], &[Phase::StageHostIdentity; 3]);
    assert_eq!(p[3], Phase::Preflight);
    assert!(plan.commands[..3].iter().all(|cmd| cmd.argv[0] != "ssh" && cmd.argv[0] != "scp"));
    let n = p.len();
    assert_eq!(p[n - 1], Phase::Reboot);
    assert_eq!(p[n - 2], Phase::StageHostIdentity);
    assert_eq!(plan.commands[n - 2].description, "disarm identity rollback hook after successful deployment");
}

#[test]
fn no_final_reboot_leaves_out_every_reboot() {
    let mut c = command();
    c.no_final_reboot = true;
    let plan = build_plan(&c, &facts()).unwrap();
    assert!(plan.commands.iter().all(|cmd| cmd.phase != Phase::Reboot));
    assert_eq!(plan.commands.last().unwrap().phase, Phase::NixosInstall);
}

// ---------------------------------------------------------------------------
// TTY allocation
// ---------------------------------------------------------------------------

#[test]
fn tty_goes_to_every_mutating_ssh_command_and_no_other() {
    let mut c = command();
    c.ssh_tty = true;
    c.host_key = Some(join("ssh_host_ed25519_key"));
    c.installer_known_hosts_files = vec![join("known_hosts")];
    let plan = build_plan(&c, &facts()).unwrap();
    let mut seen_mutating = 0;
    for cmd in plan.commands.iter().filter(|cmd| cmd.argv[0] == "ssh") {
        assert_eq!(cmd.argv[1] == "-tt", cmd.mutates, "{}", cmd.description);
        if cmd.mutates {
            seen_mutating += 1;
        }
    }
    assert!(seen_mutating >= 4);
}

#[test]
fn tty_option_value_is_not_a_tty_request() {
    let mut c = command();
    c.ssh_options = vec!["-tt".to_string()];
    let plan = build_plan(&c, &facts()).unwrap();
    for cmd in plan.commands.iter().filter(|cmd| cmd.argv[0] == "ssh") {
        assert_eq!(cmd.argv[1], "-o");
        assert_eq!(cmd.argv[2], "-tt");
    }
}

// ---------------------------------------------------------------------------
// Install handoff and strategy
// ---------------------------------------------------------------------------

#[test]
fn host_key_and_closure_copy_sit_between_mount_and_install() {
    let mut c = command();
    c.system = Some("/nix/store/abc-nixos-system-host".to_string());
    c.host_key = Some(join("ssh_host_ed25519_key"));
    let plan = build_plan(&c, &facts()).unwrap();
    let mount = plan
        .commands
        .iter()
        .position(|cmd| cmd.description == "mount target storage through disk-nix")
        .unwrap();
    let key = plan
        .commands
        .iter()
        .position(|cmd| cmd.phase == Phase::StageHostIdentity && cmd.argv[0] == "ssh")
        .unwrap();
    let copy = plan.commands.iter().position(|cmd| cmd.phase == Phase::CopySystem).unwrap();
    let install = plan
        .commands
        .iter()
        .position(|cmd| cmd.description == "install prebuilt NixOS system closure")
        .unwrap();
    assert!(mount < key && key < copy && copy < install);
    assert_eq!(plan.commands[mount].phase, Phase::NixosInstall);
    assert_eq!(plan.commands[install].phase, Phase::NixosInstall);
    assert_eq!(plan.install_strategy, InstallStrategy::CopyPrebuiltSystem);
    assert_eq!(
        plan.install_strategy_summary,
        "nixos-kexec copies a prebuilt system closure into the mounted target store"
    );
}

#[test]
fn without_system_or_host_key_the_handoff_is_one_disk_nix_install() {
    let plan = build_plan(&command(), &facts()).unwrap();
    assert!(plan.commands.iter().all(|cmd| cmd.phase != Phase::CopySystem));
    assert!(plan.commands.iter().all(|cmd| cmd.phase != Phase::StageHostIdentity));
    let installs: Vec<_> = plan.commands.iter().filter(|c| c.phase == Phase::NixosInstall).collect();
    assert_eq!(installs.len(), 1);
    assert_eq!(installs[0].description, "mount target storage and run nixos-install through disk-nix");
}

#[test]
fn staged_flake_uses_fragment_after_first_hash() {
    let mut c = command();
    c.flake = "path:/home/me/flake#host#extra".to_string();
    c.flake_source = Some(join("flake"));
    let plan = build_plan(&c, &facts()).unwrap();
    assert_eq!(plan.install_flake, "path:/tmp/nixos-kexec/flake-source#host#extra");
    assert_eq!(plan.install_strategy, InstallStrategy::StageLocalFlake);
}

#[test]
fn host_key_upload_targets_the_parent_directory() {
    let mut c = command();
    c.host_key = Some(join("ssh_host_ed25519_key"));
    let plan = build_plan(&c, &facts()).unwrap();
    let upload = plan
        .commands
        .iter()
        .find(|cmd| cmd.description == "upload private SSH host key into the installer workdir")
        .unwrap();
    assert!(upload.argv[2].contains("mkdir -p /tmp/nixos-kexec/host-identity; cat > /tmp/nixos-kexec/host-identity/ssh_host_ed25519_key"));
    assert_eq!(plan.host_key_public.as_deref(), Some(join("ssh_host_ed25519_key.pub").as_str()));
}

#[test]
fn known_hosts_paths_are_numbered_in_decimal() {
    let mut c = command();
    c.installer_known_hosts_files = vec![join("known_hosts"); 11];
    let plan = build_plan(&c, &facts()).unwrap();
    let uploads: Vec<_> = plan
        .commands
        .iter()
        .filter(|cmd| cmd.description == "upload SSH known_hosts for installer-side flake fetches")
        .collect();
    assert_eq!(uploads.len(), 11);
    assert!(uploads[0].argv[2].contains("/tmp/nixos-kexec/installer-known-hosts-0"));
    assert!(uploads[10].argv[2].contains("/tmp/nixos-kexec/installer-known-hosts-10"));
}

// ---------------------------------------------------------------------------
// Refusals
// ---------------------------------------------------------------------------

#[test]
fn each_planning_refusal_names_its_cause() {
    let f = facts();
    let mut c = command();
    c.disk_spec = join("missing.json");
    assert_eq!(refusal(&c, &f), format!("disk spec does not exist or is not a regular file: {TEMP}/missing.json"));

    let mut c = command();
    c.kexec_kernel = join("nope");
    assert_eq!(refusal(&c, &f), format!("kexec kernel does not exist or is not a regular file: {TEMP}/nope"));

    let mut c = command();
    c.kexec_initrd = TEMP.to_string();
    assert_eq!(refusal(&c, &f), format!("kexec initrd does not exist or is not a regular file: {TEMP}"));

    let mut c = command();
    c.remote_workdir = "tmp".to_string();
    assert_eq!(refusal(&c, &f), "target root and remote workdir must be absolute paths");

    let mut c = command();
    c.target_root = String::new();
    assert_eq!(refusal(&c, &f), "target root and remote workdir must be absolute paths");

    let mut c = command();
    c.flake_source = Some(join("install.json"));
    assert_eq!(refusal(&c, &f), format!("flake source is not a directory: {TEMP}/install.json"));

    let mut c = command();
    c.system = Some("/nix/store/missing".to_string());
    assert_eq!(refusal(&c, &f), "system closure does not exist: /nix/store/missing");

    let mut c = command();
    c.host_key = Some(join("absent"));
    assert_eq!(refusal(&c, &f), format!("host key does not exist or is not a regular file: {TEMP}/absent"));

    let mut c = command();
    c.host_key = Some(join("ssh_host_ed25519_key"));
    c.host_key_public = Some(join("absent.pub"));
    assert_eq!(refusal(&c, &f), format!("host public key does not exist or is not a regular file: {TEMP}/absent.pub"));

    let mut c = command();
    c.generate_host_key = true;
    c.identity_host = Some("  ".to_string());
    assert_eq!(refusal(&c, &f), "--identity-host cannot be empty");

    let mut c = command();
    c.kexec_append = None;
    assert_eq!(refusal(&c, &f), "could not infer kexec command line; pass --kexec-append explicitly");

    let mut c = command();
    c.flake_source = Some(join("flake"));
    c.flake = "path:/home/me/flake#".to_string();
    assert_eq!(refusal(&c, &f), "local flake source staging requires a non-empty #host fragment");
}

#[test]
fn kexec_boot_script_without_command_line_is_refused() {
    let mut c = command();
    c.kexec_append = None;
    let mut f = facts();
    f.kexec_boot = KexecBootSource::Script(join("kexec-boot"), "#!/bin/sh\nkexec --load ./bzImage\n".to_string());
    assert_eq!(
        refusal(&c, &f),
        format!("could not find --command-line in {TEMP}/kexec-boot; pass --kexec-append explicitly")
    );
}

#[test]
fn kexec_boot_command_line_is_read_from_the_script() {
    assert_eq!(
        parse_kexec_boot_command_line("kexec --load ./bzImage --initrd=./initrd.gz --command-line \"init=/nix/store/x-init loglevel=4\"\n"),
        Some("init=/nix/store/x-init loglevel=4".to_string())
    );
    assert_eq!(parse_kexec_boot_command_line("echo nothing here\n"), None);
}

#[test]
fn run_and_build_refuse_without_execute() {
    let r = SshRunCommand { ssh: command(), execute: false };
    assert_eq!(run_script(&r, &facts()).unwrap_err().to_string(), RUN_REFUSAL);
    let b = InstallerRunCommand { build: installer_command(), execute: false };
    assert_eq!(installer_build_plan(&b, &installer_facts()).unwrap_err().to_string(), BUILD_REFUSAL);
}

#[test]
fn run_with_execute_gives_the_reviewable_script() {
    let r = SshRunCommand { ssh: command(), execute: true };
    let plan = build_plan(&command(), &facts()).unwrap();
    assert_eq!(run_script(&r, &facts()).unwrap(), render_script(&plan));
    let b = InstallerRunCommand { build: installer_command(), execute: true };
    let built = installer_build_plan(&b, &installer_facts()).unwrap();
    assert_eq!(built.argv, build_installer_plan(&installer_command(), &installer_facts()).unwrap().argv);
}

#[test]
fn installer_refusals_name_their_cause() {
    let f = installer_facts();
    let mut c = installer_command();
    c.system = "  ".to_string();
    assert_eq!(build_installer_plan(&c, &f).unwrap_err().to_string(), "installer system cannot be empty");

    let mut c = installer_command();
    c.network_manager_profiles_json = Some(join("absent.json"));
    assert_eq!(
        build_installer_plan(&c, &f).unwrap_err().to_string(),
        format!("NetworkManager profiles JSON does not exist or is not a regular file: {TEMP}/absent.json")
    );

    let mut c = installer_command();
    c.authorized_keys.clear();
    c.authorized_key_files = vec![join("id.pub")];
    let unreadable = InstallerFacts {
        probes: Vec::new(),
        authorized_key_file_texts: vec![Err("permission denied".to_string())],
    };
    assert_eq!(
        build_installer_plan(&c, &unreadable).unwrap_err().to_string(),
        format!("could not read authorized key file {TEMP}/id.pub: permission denied")
    );
}

#[test]
fn installer_keys_skip_blank_lines_and_comments() {
    let mut c = installer_command();
    c.authorized_key_files = vec![join("keys")];
    let f = InstallerFacts {
        probes: Vec::new(),
        authorized_key_file_texts: vec![Ok("\n# comment\n  ssh-ed25519 BBBB second  \n\r\nssh-rsa CCCC third".to_string())],
    };
    let plan = build_installer_plan(&c, &f).unwrap();
    assert_eq!(plan.authorized_key_count, 3);
    assert!(plan.expression.contains("\"ssh-ed25519 BBBB second\""));
    assert!(plan.expression.contains("\"ssh-rsa CCCC third\""));
}

// ---------------------------------------------------------------------------
// Quoting
// ---------------------------------------------------------------------------

#[test]
fn shell_quote_exact_values() {
    assert_eq!(shell_quote("root@192.0.2.10:/tmp/x,y=z+%"), "root@192.0.2.10:/tmp/x,y=z+%");
    assert_eq!(shell_quote("a b"), "'a b'");
    assert_eq!(shell_quote("it's"), "'it'\"'\"'s'");
    assert_eq!(shell_quote(""), "");
    assert_eq!(shell_quote("$HOME"), "'$HOME'");
}

#[test]
fn command_lines_read_back_as_their_arguments() {
    let argv: Vec<String> = ["ssh", "-o", "BatchMode=yes", "root@h", "echo 'hi' \"there\" $X; it's"]
        .iter()
        .map(|s| s.to_string())
        .collect();
    let line = shell_command(&argv);
    assert_eq!(read_words(&line), argv);
    let plan = build_plan(&command(), &facts()).unwrap();
    for cmd in plan.commands.iter().filter(|cmd| cmd.argv[0] == "ssh" || cmd.argv[0] == "sh") {
        assert_eq!(read_words(&render_command(cmd)), cmd.argv);
    }
}

#[test]
fn nix_string_exact_values() {
    assert_eq!(nix_string("plain"), "\"plain\"");
    assert_eq!(nix_string("a\\b\"c${d}"), "\"a\\\\b\\\"c\\${d}\"");
    assert_eq!(nix_string("$${x}"), "\"$\\${x}\"");
    assert_eq!(nix_string("\\${"), "\"\\\\\\${\"");
    let list: Vec<String> = vec!["a".to_string(), "b\"".to_string()];
    assert_eq!(nix_list(&list), "[ \"a\" \"b\\\"\" ]");
}

#[test]
fn percent_encoding_exact_values() {
    assert_eq!(percent_encode_query_value("local?root=/mnt"), "local%3Froot%3D%2Fmnt");
    assert_eq!(percent_encode_query_value("A-z_0.9~"), "A-z_0.9~");
    assert_eq!(percent_encode_query_value("é "), "%C3%A9%20");
}

#[test]
fn nix_ssh_options_are_joined_pairs() {
    let opts: Vec<String> = vec!["BatchMode=yes".to_string(), "Port=2222".to_string()];
    assert_eq!(ssh_options_for_nix(&opts), "-o BatchMode=yes -o Port=2222");
    assert_eq!(ssh_options_for_nix(&Vec::new()), "");
}

// ---------------------------------------------------------------------------
// Texts
// ---------------------------------------------------------------------------

#[test]
fn plan_text_lists_inputs_and_commands() {
    let mut c = command();
    c.flake_source = Some(join("flake"));
    let plan = build_plan(&c, &facts()).unwrap();
    let text = plan_text(&plan);
    assert!(text.starts_with("target: root@192.0.2.10\nflake: github:example/flake#host\ninstall flake: path:/tmp/nixos-kexec/flake-source#host\ninstall strategy: nixos-kexec uploads local flake source; installer builds or downloads the target system closure\n"));
    assert!(text.contains(&format!("flake source: {TEMP}/flake\n")));
    assert!(text.contains("[Preflight] read-only: check remote root access and required tools before staging kexec\n  ssh -o BatchMode=yes root@192.0.2.10 "));
    assert!(text.ends_with("[Reboot] mutates: sync and reboot into the installed system\n  ssh -o BatchMode=yes root@192.0.2.10 'set -euo pipefail; sync; reboot'\n"));
}

#[test]
fn installer_plan_text_shows_command_and_counts() {
    let plan = build_installer_plan(&installer_command(), &installer_facts()).unwrap();
    let text = installer_plan_text(&plan);
    assert!(text.contains("authorized keys: 1\n"));
    assert!(text.contains("system: x86_64-linux\n"));
}

#[test]
fn probed_paths_cover_every_local_input() {
    let mut c = command();
    c.host_key = Some(join("ssh_host_ed25519_key"));
    c.installer_known_hosts_files = vec![join("known_hosts")];
    let paths = probe_paths(&c);
    for p in [join("install.json"), join("kernel"), join("initrd"), join("ssh_host_ed25519_key"), join("ssh_host_ed25519_key.pub"), join("known_hosts")] {
        assert!(paths.contains(&p), "{p}");
    }
}

// ---------------------------------------------------------------------------
// More laws on concrete values
// ---------------------------------------------------------------------------

#[test]
fn kexec_boot_script_sits_beside_the_kernel() {
    assert_eq!(kexec_boot_path("/nix/store/x-kexec/bzImage"), Some("/nix/store/x-kexec/kexec-boot".to_string()));
    assert_eq!(kexec_boot_path("bzImage"), Some("kexec-boot".to_string()));
    assert_eq!(kexec_boot_path("/bzImage"), Some("/kexec-boot".to_string()));
    assert_eq!(kexec_boot_path("/"), None);
    assert_eq!(kexec_boot_path(""), None);
}

#[test]
fn milestones_come_first_in_documented_order() {
    let mut c = command();
    c.generate_host_key = true;
    c.identity_hook = Some(join("hook.sh"));
    c.identity_rollback_hook = Some(join("rollback.sh"));
    c.installer_known_hosts_files = vec![join("known_hosts")];
    let plan = build_plan(&c, &facts()).unwrap();
    let first = |ph: Phase| plan.commands.iter().position(|cmd| cmd.phase == ph).unwrap();
    let order = [
        Phase::Preflight,
        Phase::StageKexec,
        Phase::Kexec,
        Phase::AwaitInstaller,
        Phase::StageInstall,
        Phase::DiskNixApply,
        Phase::NixosInstall,
    ];
    for pair in order.windows(2) {
        assert!(first(pair[0]) < first(pair[1]));
    }
    let last_stage = plan.commands.iter().rposition(|cmd| cmd.phase == Phase::StageInstall).unwrap();
    assert!(last_stage < first(Phase::DiskNixApply));
    let n = plan.commands.len();
    assert_eq!(plan.commands[n - 2].description, "disarm identity rollback hook after successful deployment");
    assert_eq!(plan.commands[n - 1].phase, Phase::Reboot);
}

#[test]
fn ssh_loops_never_ask_for_a_tty() {
    let mut c = command();
    c.ssh_tty = true;
    let plan = build_plan(&c, &facts()).unwrap();
    for cmd in plan.commands.iter().filter(|cmd| cmd.phase == Phase::Kexec || cmd.phase == Phase::AwaitInstaller) {
        assert!(cmd.argv.iter().all(|arg| !arg.contains("-tt")));
    }
    for cmd in plan.commands.iter().filter(|cmd| cmd.argv[0] == "ssh") {
        assert_eq!(cmd.argv.iter().any(|arg| arg == "-tt"), cmd.mutates);
    }
}

#[test]
fn copy_system_script_is_nix_copy_to_the_mounted_store() {
    let mut c = command();
    c.system = Some("/nix/store/abc-nixos-system-host".to_string());
    let plan = build_plan(&c, &facts()).unwrap();
    let copy = plan.commands.iter().find(|cmd| cmd.phase == Phase::CopySystem).unwrap();
    assert_eq!(copy.argv[0], "sh");
    assert_eq!(copy.argv[1], "-c");
    assert_eq!(
        copy.argv[2],
        "NIX_SSHOPTS='-o BatchMode=yes' nix copy --no-check-sigs --to 'ssh-ng://root@192.0.2.10?remote-store=local%3Froot%3D%2Fmnt' /nix/store/abc-nixos-system-host"
    );
    c.ssh_options.clear();
    let plan = build_plan(&c, &facts()).unwrap();
    let copy = plan.commands.iter().find(|cmd| cmd.phase == Phase::CopySystem).unwrap();
    assert!(copy.argv[2].starts_with("nix copy --no-check-sigs --to "));
}

#[test]
fn quoted_command_line_of_kexec_boot_reads_back() {
    let script = "#!/bin/sh\nexec kexec --load ./bzImage --initrd ./initrd --command-line \"init=/nix/store/abc-nixos/init console=ttyS0\" --extra\n";
    assert_eq!(
        parse_kexec_boot_command_line(script),
        Some("init=/nix/store/abc-nixos/init console=ttyS0".to_string())
    );
}

#[test]
fn percent_encoding_alphabet_and_identity() {
    for v in ["local?root=/mnt", "é~", "a b", "100%", "Tilde~ok"] {
        let r = percent_encode_query_value(v);
        let chars: Vec<char> = r.chars().collect();
        let mut i = 0;
        while i < chars.len() {
            if chars[i] == '%' {
                assert!(chars[i + 1].is_ascii_hexdigit() && !chars[i + 1].is_ascii_lowercase());
                assert!(chars[i + 2].is_ascii_hexdigit() && !chars[i + 2].is_ascii_lowercase());
                i += 3;
            } else {
                assert!(chars[i].is_ascii_alphanumeric() || "-._~".contains(chars[i]));
                i += 1;
            }
        }
        let unchanged = v.bytes().all(|b| b.is_ascii_alphanumeric() || b"-._~".contains(&b));
        assert_eq!(r == v, unchanged, "{v}");
    }
}
