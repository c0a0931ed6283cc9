//! The commands of a deployment plan: SSH, scp and local shell steps.
use vstd::prelude::*;
use vstd::string::*;

use crate::model::{CommandModel, Phase, PlanCommand, SshCommand};
use crate::quote::{
    option_args, percent_encode_query_value, percent_encoded, push_option_args, shell_command,
    shell_line, shell_quote, shell_quoted, ssh_options_for_nix,
};
use crate::text::{owned, seq_join, str_eq};

verus! {

/// First element of the argv of a command that is a shell fragment run as it is.
pub const RAW_SCRIPT_SENTINEL: &'static str = "__nixos_kexec_raw_script";

/// The `-o OPTION` arguments of the command's SSH options.
pub open spec fn opts(c: SshCommand) -> Seq<Seq<char>> {
    option_args(c.ssh_options.deep_view())
}

/// A command built from its parts.
pub open spec fn command_model(
    phase: Phase,
    description: Seq<char>,
    mutates: bool,
    argv: Seq<Seq<char>>,
) -> CommandModel {
    CommandModel { phase, argv, description, mutates }
}

/// A local command.
pub fn local_command(phase: Phase, description: &str, mutates: bool, argv: Vec<String>) -> (res:
    PlanCommand)
    ensures
        res@ == command_model(phase, description@, mutates, argv.deep_view()),
{
    PlanCommand { phase, argv, description: owned(description), mutates }
}

/// The argv of a raw shell fragment.
pub open spec fn raw_argv(script: Seq<char>) -> Seq<Seq<char>> {
    seq![RAW_SCRIPT_SENTINEL@, script]
}

/// Marks `script` as a shell fragment to be rendered as it is.
pub fn raw_script_argv(script: String) -> (res: Vec<String>)
    ensures
        res.deep_view() == raw_argv(script@),
{
    let mut v: Vec<String> = Vec::new();
    v.push(owned(RAW_SCRIPT_SENTINEL));
    v.push(script);
    assert(v.deep_view() =~= raw_argv(script@));
    v
}

/// `sh -c SCRIPT`.
pub open spec fn sh_argv(script: Seq<char>) -> Seq<Seq<char>> {
    seq!["sh"@, "-c"@, script]
}

fn sh_c(script: String) -> (res: Vec<String>)
    ensures
        res.deep_view() == sh_argv(script@),
{
    let mut v: Vec<String> = Vec::new();
    v.push(owned("sh"));
    v.push(owned("-c"));
    v.push(script);
    assert(v.deep_view() =~= sh_argv(script@));
    v
}

/// The argv of an SSH command: `-tt` only when a TTY is asked for and the
/// command mutates the host.
pub open spec fn ssh_argv(c: SshCommand, mutates: bool, script: Seq<char>) -> Seq<Seq<char>> {
    seq!["ssh"@] + (if c.ssh_tty && mutates {
        seq!["-tt"@]
    } else {
        Seq::empty()
    }) + opts(c) + seq![c.target@, script]
}

/// A remote command run over SSH.
pub fn ssh_command(
    command: &SshCommand,
    phase: Phase,
    description: &str,
    mutates: bool,
    remote_script: String,
) -> (res: PlanCommand)
    ensures
        res@ == command_model(
            phase,
            description@,
            mutates,
            ssh_argv(*command, mutates, remote_script@),
        ),
{
    let ghost script = remote_script@;
    let mut argv: Vec<String> = Vec::new();
    argv.push(owned("ssh"));
    if command.ssh_tty && mutates {
        argv.push(owned("-tt"));
    }
    push_option_args(&mut argv, &command.ssh_options);
    let ghost before = argv.deep_view();
    argv.push(owned(command.target.as_str()));
    argv.push(remote_script);
    assert(argv.deep_view() =~= before + seq![command.target@, script]);
    assert(argv.deep_view() =~= ssh_argv(*command, mutates, script));
    local_command(phase, description, mutates, argv)
}

/// `ssh [-o OPTION]... TARGET SCRIPT` as a vector.
fn ssh_words(command: &SshCommand, prefix: Vec<String>, remote_script: String) -> (res: Vec<
    String,
>)
    ensures
        res.deep_view() == prefix.deep_view() + opts(*command) + seq![
            command.target@,
            remote_script@,
        ],
{
    let ghost script = remote_script@;
    let mut argv = prefix;
    push_option_args(&mut argv, &command.ssh_options);
    let ghost before = argv.deep_view();
    argv.push(owned(command.target.as_str()));
    argv.push(remote_script);
    assert(argv.deep_view() =~= before + seq![command.target@, script]);
    argv
}

fn words1(a: &str) -> (res: Vec<String>)
    ensures
        res.deep_view() == seq![a@],
{
    let mut v: Vec<String> = Vec::new();
    v.push(owned(a));
    assert(v.deep_view() =~= seq![a@]);
    v
}

fn words3(a: &str, b: &str, c: &str) -> (res: Vec<String>)
    ensures
        res.deep_view() == seq![a@, b@, c@],
{
    let mut v: Vec<String> = Vec::new();
    v.push(owned(a));
    v.push(owned(b));
    v.push(owned(c));
    assert(v.deep_view() =~= seq![a@, b@, c@]);
    v
}

pub const DISCONNECT_HEAD: &'static str = "set +e; output=$(";

pub const DISCONNECT_TAIL: &'static str = " 2>&1); status=$?; set -e; printf '%s\\n' \"$output\"; if [ \"$status\" -eq 0 ]; then exit 0; fi; if [ \"$status\" -eq 255 ] || [ \"$status\" -eq 124 ]; then case \"$output\" in *'nixos-kexec: entering kexec'*|*'Connection to '*' closed.'*) exit 0 ;; esac; fi; exit \"$status\"";

/// The shell fragment that runs SSH under a timeout and treats the loss of
/// the connection after the kexec announcement as success.
pub open spec fn disconnect_tolerant_script(c: SshCommand, script: Seq<char>) -> Seq<char> {
    DISCONNECT_HEAD@ + shell_line(
        seq!["timeout"@, "120s"@, "ssh"@] + opts(c) + seq![c.target@, script],
    ) + DISCONNECT_TAIL@
}

/// A remote command whose connection is expected to drop (the kexec itself).
pub fn disconnect_tolerant_ssh_command(
    command: &SshCommand,
    phase: Phase,
    description: &str,
    mutates: bool,
    remote_script: String,
) -> (res: PlanCommand)
    ensures
        res@ == command_model(
            phase,
            description@,
            mutates,
            sh_argv(disconnect_tolerant_script(*command, remote_script@)),
        ),
{
    let words = ssh_words(command, words3("timeout", "120s", "ssh"), remote_script);
    let ssh = shell_command(&words);
    let mut script = owned(DISCONNECT_HEAD);
    script.append(ssh.as_str());
    script.append(DISCONNECT_TAIL);
    local_command(phase, description, mutates, sh_c(script))
}

/// The argv of an scp command.
pub open spec fn scp_argv(c: SshCommand, args: Seq<Seq<char>>) -> Seq<Seq<char>> {
    seq!["scp"@] + opts(c) + args
}

/// A local scp command.
pub fn scp_command(
    command: &SshCommand,
    phase: Phase,
    description: &str,
    mutates: bool,
    args: Vec<String>,
) -> (res: PlanCommand)
    ensures
        res@ == command_model(phase, description@, mutates, scp_argv(*command, args.deep_view())),
{
    let mut argv = words1("scp");
    push_option_args(&mut argv, &command.ssh_options);
    let ghost before = argv.deep_view();
    let mut i: usize = 0;
    while i < args.len()
        invariant
            0 <= i <= args@.len(),
            argv.deep_view() =~= before + args.deep_view().take(i as int),
        decreases args@.len() - i,
    {
        let ghost prev = argv.deep_view();
        argv.push(owned(args[i].as_str()));
        assert(argv.deep_view() =~= prev.push(args.deep_view()[i as int]));
        assert(args.deep_view().take(i + 1) =~= args.deep_view().take(i as int).push(
            args.deep_view()[i as int],
        ));
        i += 1;
    }
    assert(args.deep_view().take(args@.len() as int) =~= args.deep_view());
    local_command(phase, description, mutates, argv)
}

/// `TARGET:PATH`.
pub open spec fn remote_spec(c: SshCommand, path: Seq<char>) -> Seq<char> {
    c.target@ + ":"@ + path
}

fn remote_location(command: &SshCommand, path: &str) -> (res: String)
    ensures
        res@ == remote_spec(*command, path@),
{
    let mut s = owned(command.target.as_str());
    s.append(":");
    s.append(path);
    s
}

/// The scp command line that copies one local file to a remote path.
pub open spec fn scp_line(c: SshCommand, file: (Seq<char>, Seq<char>)) -> Seq<char> {
    shell_line(scp_argv(c, seq![file.0, remote_spec(c, file.1)]))
}

/// The scp command lines of all files, joined with `&&`.
pub open spec fn scp_lines(c: SshCommand, files: Seq<(Seq<char>, Seq<char>)>) -> Seq<char> {
    seq_join(files.map_values(|f: (Seq<char>, Seq<char>)| scp_line(c, f)), " && "@)
}

/// Copies local files to remote paths, one scp after the other.
pub fn scp_to_remote_paths_command(
    command: &SshCommand,
    phase: Phase,
    description: &str,
    mutates: bool,
    files: &Vec<(String, String)>,
) -> (res: PlanCommand)
    ensures
        res@ == command_model(
            phase,
            description@,
            mutates,
            sh_argv(scp_lines(*command, files.deep_view())),
        ),
{
    let ghost lines = files.deep_view().map_values(
        |f: (Seq<char>, Seq<char>)| scp_line(*command, f),
    );
    let mut joined = String::new();
    let mut i: usize = 0;
    while i < files.len()
        invariant
            lines == files.deep_view().map_values(
                |f: (Seq<char>, Seq<char>)| scp_line(*command, f),
            ),
            0 <= i <= files@.len(),
            joined@ == seq_join(lines.take(i as int), " && "@),
        decreases files@.len() - i,
    {
        if i != 0 {
            joined.append(" && ");
        }
        let mut argv = words1("scp");
        push_option_args(&mut argv, &command.ssh_options);
        let ghost before = argv.deep_view();
        argv.push(owned(files[i].0.as_str()));
        argv.push(remote_location(command, files[i].1.as_str()));
        assert(argv.deep_view() =~= scp_argv(
            *command,
            seq![files.deep_view()[i as int].0, remote_spec(*command, files.deep_view()[i as int].1)],
        ));
        let line = shell_command(&argv);
        joined.append(line.as_str());
        assert(lines.take(i + 1).drop_last() =~= lines.take(i as int));
        i += 1;
    }
    assert(lines.take(files@.len() as int) =~= lines);
    local_command(phase, description, mutates, sh_c(joined))
}

pub const AWAIT_HEAD: &'static str = "deadline=$(($(date +%s) + 600)); while :; do if ";

pub const AWAIT_TAIL: &'static str = "; then break; fi; if [ \"$(date +%s)\" -ge \"$deadline\" ]; then echo 'timed out waiting for installer SSH' >&2; exit 1; fi; sleep 5; done";

/// The shell loop that waits up to ten minutes for SSH to answer again.
pub open spec fn await_script(c: SshCommand) -> Seq<char> {
    AWAIT_HEAD@ + shell_line(
        seq!["timeout"@, "15s"@, "ssh"@] + opts(c) + seq![
            "-o"@,
            "ConnectTimeout=5"@,
            c.target@,
            "true"@,
        ],
    ) + AWAIT_TAIL@
}

/// The shell loop that waits for the installer's SSH after kexec.
pub fn await_ssh_script(command: &SshCommand) -> (res: String)
    ensures
        res@ == await_script(*command),
{
    let mut argv = words3("timeout", "15s", "ssh");
    push_option_args(&mut argv, &command.ssh_options);
    let ghost before = argv.deep_view();
    argv.push(owned("-o"));
    argv.push(owned("ConnectTimeout=5"));
    argv.push(owned(command.target.as_str()));
    argv.push(owned("true"));
    assert(argv.deep_view() =~= before + seq![
        "-o"@,
        "ConnectTimeout=5"@,
        command.target@,
        "true"@,
    ]);
    let ssh = shell_command(&argv);
    let mut res = owned(AWAIT_HEAD);
    res.append(ssh.as_str());
    res.append(AWAIT_TAIL);
    res
}

/// The command line that runs disk-nix with `args`: the preinstalled command
/// when one is given, else the flake app through `nix run`.
pub open spec fn disk_nix_line(c: SshCommand, args: Seq<Seq<char>>) -> Seq<char> {
    shell_line(
        match c.disk_nix_command {
            Some(cmd) => seq![cmd@],
            None => seq![
                "nix"@,
                "--extra-experimental-features"@,
                "nix-command flakes"@,
                "run"@,
                c.disk_nix@,
                "--"@,
            ],
        } + args,
    )
}

/// Renders a disk-nix invocation.
pub fn disk_nix_invocation(command: &SshCommand, args: &Vec<String>) -> (res: String)
    ensures
        res@ == disk_nix_line(*command, args.deep_view()),
{
    let mut argv: Vec<String> = Vec::new();
    match &command.disk_nix_command {
        Some(cmd) => {
            argv.push(owned(cmd.as_str()));
        },
        None => {
            argv.push(owned("nix"));
            argv.push(owned("--extra-experimental-features"));
            argv.push(owned("nix-command flakes"));
            argv.push(owned("run"));
            argv.push(owned(command.disk_nix.as_str()));
            argv.push(owned("--"));
        },
    }
    let ghost before = argv.deep_view();
    let mut i: usize = 0;
    while i < args.len()
        invariant
            0 <= i <= args@.len(),
            argv.deep_view() =~= before + args.deep_view().take(i as int),
        decreases args@.len() - i,
    {
        let ghost prev = argv.deep_view();
        argv.push(owned(args[i].as_str()));
        assert(argv.deep_view() =~= prev.push(args.deep_view()[i as int]));
        assert(args.deep_view().take(i + 1) =~= args.deep_view().take(i as int).push(
            args.deep_view()[i as int],
        ));
        i += 1;
    }
    assert(args.deep_view().take(args@.len() as int) =~= args.deep_view());
    assert(argv.deep_view() =~= match command.disk_nix_command {
        Some(cmd) => seq![cmd@],
        None => seq![
            "nix"@,
            "--extra-experimental-features"@,
            "nix-command flakes"@,
            "run"@,
            command.disk_nix@,
            "--"@,
        ],
    } + args.deep_view());
    shell_command(&argv)
}

/// The `nix copy` command line that copies `system` into the mounted target store.
pub open spec fn nix_copy_line(c: SshCommand, system: Seq<char>) -> Seq<char> {
    shell_line(
        seq![
            "nix"@,
            "copy"@,
            "--no-check-sigs"@,
            "--to"@,
            "ssh-ng://"@ + c.target@ + "?remote-store="@ + percent_encoded(
                vstd::utf8::encode_utf8("local?root="@ + c.target_root@),
            ),
            system,
        ],
    )
}

/// The shell fragment that copies the closure, with the SSH options passed
/// through `NIX_SSHOPTS` when there are any.
pub open spec fn copy_system_script(c: SshCommand, system: Seq<char>) -> Seq<char> {
    if c.ssh_options@.len() == 0 {
        nix_copy_line(c, system)
    } else {
        "NIX_SSHOPTS="@ + shell_quoted(seq_join(opts(c), " "@)) + " "@ + nix_copy_line(c, system)
    }
}

/// Copies a prebuilt system closure into the mounted target store.
pub fn copy_system_command(command: &SshCommand, system: &str) -> (res: PlanCommand)
    ensures
        res@ == command_model(
            Phase::CopySystem,
            "copy prebuilt NixOS system closure into the mounted target store"@,
            true,
            sh_argv(copy_system_script(*command, system@)),
        ),
{
    let mut remote_store = owned("local?root=");
    remote_store.append(command.target_root.as_str());
    let mut store_uri = owned("ssh-ng://");
    store_uri.append(command.target.as_str());
    store_uri.append("?remote-store=");
    let encoded = percent_encode_query_value(remote_store.as_str());
    store_uri.append(encoded.as_str());
    let mut argv: Vec<String> = Vec::new();
    argv.push(owned("nix"));
    argv.push(owned("copy"));
    argv.push(owned("--no-check-sigs"));
    argv.push(owned("--to"));
    argv.push(store_uri);
    argv.push(owned(system));
    assert(remote_store@ =~= "local?root="@ + command.target_root@);
    assert(argv.deep_view() =~= seq![
        "nix"@,
        "copy"@,
        "--no-check-sigs"@,
        "--to"@,
        "ssh-ng://"@ + command.target@ + "?remote-store="@ + percent_encoded(
            vstd::utf8::encode_utf8("local?root="@ + command.target_root@),
        ),
        system@,
    ]);
    let nix_copy = shell_command(&argv);
    assert(nix_copy@ == nix_copy_line(*command, system@));
    let script = if command.ssh_options.len() == 0 {
        nix_copy
    } else {
        let nix_opts = ssh_options_for_nix(&command.ssh_options);
        let quoted = shell_quote(nix_opts.as_str());
        let mut s = owned("NIX_SSHOPTS=");
        s.append(quoted.as_str());
        s.append(" ");
        s.append(nix_copy.as_str());
        s
    };
    local_command(
        Phase::CopySystem,
        "copy prebuilt NixOS system closure into the mounted target store",
        true,
        sh_c(script),
    )
}

/// How a command is shown in a script: a raw fragment as it is, anything
/// else as a quoted command line.
pub open spec fn rendered(cmd: CommandModel) -> Seq<char> {
    if cmd.argv.len() > 0 && cmd.argv[0] == RAW_SCRIPT_SENTINEL@ {
        if cmd.argv.len() > 1 {
            cmd.argv[1]
        } else {
            Seq::empty()
        }
    } else {
        shell_line(cmd.argv)
    }
}

/// Renders one command.
pub fn render_command(command: &PlanCommand) -> (res: String)
    ensures
        res@ == rendered(command@),
{
    if command.argv.len() > 0 && str_eq(command.argv[0].as_str(), RAW_SCRIPT_SENTINEL) {
        if command.argv.len() > 1 {
            owned(command.argv[1].as_str())
        } else {
            String::new()
        }
    } else {
        shell_command(&command.argv)
    }
}

/// The name of a phase as `{:?}` writes it.
pub open spec fn phase_name(phase: Phase) -> Seq<char> {
    match phase {
        Phase::Preflight => "Preflight"@,
        Phase::StageKexec => "StageKexec"@,
        Phase::Kexec => "Kexec"@,
        Phase::AwaitInstaller => "AwaitInstaller"@,
        Phase::StageInstall => "StageInstall"@,
        Phase::DiskNixApply => "DiskNixApply"@,
        Phase::CopySystem => "CopySystem"@,
        Phase::StageHostIdentity => "StageHostIdentity"@,
        Phase::NixosInstall => "NixosInstall"@,
        Phase::Reboot => "Reboot"@,
    }
}

/// The name of a phase.
pub fn phase_label(phase: Phase) -> (res: &'static str)
    ensures
        res@ == phase_name(phase),
{
    match phase {
        Phase::Preflight => "Preflight",
        Phase::StageKexec => "StageKexec",
        Phase::Kexec => "Kexec",
        Phase::AwaitInstaller => "AwaitInstaller",
        Phase::StageInstall => "StageInstall",
        Phase::DiskNixApply => "DiskNixApply",
        Phase::CopySystem => "CopySystem",
        Phase::StageHostIdentity => "StageHostIdentity",
        Phase::NixosInstall => "NixosInstall",
        Phase::Reboot => "Reboot",
    }
}

} // verus!
