//! Commands that put local files into the installer: uploads over SSH
//! standard input, the local flake source and SSH known_hosts files.
use vstd::prelude::*;
use vstd::string::*;

use crate::commands::{command_model, local_command, opts, sh_argv, ssh_argv, ssh_command};
use crate::model::{Phase, PlanCommand, SshCommand};
use crate::quote::{push_option_args, shell_command, shell_line, shell_quote, shell_quoted};
use crate::text::{decimal, owned, push_decimal, seq_join};


verus! {

/// The parent of a path as `std::path::Path::parent` computes it, written
/// by `Path::display`; `None` for a root or an empty path.
pub uninterp spec fn path_parent(path: Seq<char>) -> Option<Seq<char>>;

/// Calls `std::path::Path::parent` on `path` and writes the parent with
/// `Path::display`. The contract claims only that the result is the named
/// function `path_parent` of the argument: `Path::parent` is a pure
/// function of the path's text.
#[verifier::external_body]
pub(crate) fn parent_of(path: &str) -> (res: Option<String>)
    ensures
        res.deep_view() == path_parent(path@),
{
    match std::path::Path::new(path).parent() {
        Some(p) => Some(p.display().to_string()),
        None => None,
    }
}

/// The directory that holds a remote path, `.` where there is none.
pub open spec fn dir_of(path: Seq<char>) -> Seq<char> {
    match path_parent(path) {
        Some(d) => d,
        None => "."@,
    }
}

/// The directory that holds `path`.
pub fn remote_dir(path: &str) -> (res: String)
    ensures
        res@ == dir_of(path@),
{
    match parent_of(path) {
        Some(d) => d,
        None => owned("."),
    }
}

/// The remote shell fragment that writes its standard input to `path` with `mode`.
pub open spec fn receive_script(dir: Seq<char>, path: Seq<char>, mode: Seq<char>) -> Seq<char> {
    "set -euo pipefail; umask 077; mkdir -p "@ + shell_quoted(dir) + "; cat > "@ + shell_quoted(
        path,
    ) + "; chmod "@ + shell_quoted(mode) + " "@ + shell_quoted(path)
}

/// The local shell fragment that sends `source` to `path` on the target.
pub open spec fn upload_line(
    c: SshCommand,
    source: Seq<char>,
    path: Seq<char>,
    dir: Seq<char>,
    mode: Seq<char>,
) -> Seq<char> {
    shell_line(seq!["ssh"@] + opts(c) + seq![c.target@, receive_script(dir, path, mode)])
        + " < "@ + source
}

/// An upload over SSH standard input, given the directory of the remote path.
pub fn upload_via_ssh_stdin(
    command: &SshCommand,
    phase: Phase,
    description: &str,
    source: &str,
    remote_path: &str,
    remote_dir: &str,
    mode: &str,
) -> (res: PlanCommand)
    ensures
        res@ == command_model(
            phase,
            description@,
            true,
            sh_argv(upload_line(*command, source@, remote_path@, remote_dir@, mode@)),
        ),
{
    let mut script = owned("set -euo pipefail; umask 077; mkdir -p ");
    script.append(shell_quote(remote_dir).as_str());
    script.append("; cat > ");
    script.append(shell_quote(remote_path).as_str());
    script.append("; chmod ");
    script.append(shell_quote(mode).as_str());
    script.append(" ");
    script.append(shell_quote(remote_path).as_str());
    assert(script@ =~= receive_script(remote_dir@, remote_path@, mode@));
    let mut argv: Vec<String> = Vec::new();
    argv.push(owned("ssh"));
    assert(argv.deep_view() =~= seq!["ssh"@]);
    push_option_args(&mut argv, &command.ssh_options);
    let ghost before = argv.deep_view();
    argv.push(owned(command.target.as_str()));
    let ghost sv = script@;
    argv.push(script);
    assert(argv.deep_view() =~= seq!["ssh"@] + opts(*command) + seq![command.target@, sv]);
    let mut line = shell_command(&argv);
    line.append(" < ");
    line.append(source);
    assert(line@ =~= upload_line(*command, source@, remote_path@, remote_dir@, mode@));
    let mut shv: Vec<String> = Vec::new();
    shv.push(owned("sh"));
    shv.push(owned("-c"));
    let ghost lv = line@;
    shv.push(line);
    assert(shv.deep_view() =~= sh_argv(lv));
    local_command(phase, description, true, shv)
}

/// Uploads a local file to a remote path.
pub fn upload_file_via_ssh_stdin_command(
    command: &SshCommand,
    phase: Phase,
    description: &str,
    local_path: &str,
    remote_path: &str,
    mode: &str,
) -> (res: PlanCommand)
    ensures
        res@ == command_model(
            phase,
            description@,
            true,
            sh_argv(
                upload_line(
                    *command,
                    shell_quoted(local_path@),
                    remote_path@,
                    dir_of(remote_path@),
                    mode@,
                ),
            ),
        ),
{
    let dir = remote_dir(remote_path);
    let source = shell_quote(local_path);
    upload_via_ssh_stdin(
        command,
        phase,
        description,
        source.as_str(),
        remote_path,
        dir.as_str(),
        mode,
    )
}

/// `"EXPR"`: a shell expression in double quotes.
pub open spec fn double_quoted(expr: Seq<char>) -> Seq<char> {
    "\""@ + expr + "\""@
}

/// Uploads the file named by a local shell variable to a remote path.
pub fn upload_variable_file_via_ssh_stdin_command(
    command: &SshCommand,
    phase: Phase,
    description: &str,
    local_path_expr: &str,
    remote_path: &str,
    mode: &str,
) -> (res: PlanCommand)
    ensures
        res@ == command_model(
            phase,
            description@,
            true,
            sh_argv(
                upload_line(
                    *command,
                    double_quoted(local_path_expr@),
                    remote_path@,
                    dir_of(remote_path@),
                    mode@,
                ),
            ),
        ),
{
    let dir = remote_dir(remote_path);
    let mut source = owned("\"");
    source.append(local_path_expr);
    source.append("\"");
    upload_via_ssh_stdin(
        command,
        phase,
        description,
        source.as_str(),
        remote_path,
        dir.as_str(),
        mode,
    )
}

/// The remote fragment that unpacks the flake source archive into `remote`.
pub open spec fn unpack_flake_script(remote: Seq<char>) -> Seq<char> {
    "set -euo pipefail; rm -rf "@ + shell_quoted(remote) + "; mkdir -p "@ + shell_quoted(remote)
        + "; tar -xzf - -C "@ + shell_quoted(remote)
}

/// The local pipeline that packs the flake source and unpacks it remotely.
pub open spec fn stage_flake_script(c: SshCommand, source: Seq<char>, remote: Seq<char>) -> Seq<
    char,
> {
    shell_line(
        seq![
            "tar"@,
            "-C"@,
            source,
            "--exclude"@,
            ".git"@,
            "--exclude"@,
            ".jj"@,
            "-czf"@,
            "-"@,
            "."@,
        ],
    ) + " | "@ + shell_line(seq!["ssh"@] + opts(c) + seq![c.target@, unpack_flake_script(remote)])
}

/// Uploads the local flake source into the installer.
pub fn stage_flake_source_command(
    command: &SshCommand,
    flake_source: &str,
    remote_flake_source: &str,
) -> (res: PlanCommand)
    ensures
        res@ == command_model(
            Phase::StageInstall,
            "upload local flake source into the installer"@,
            false,
            sh_argv(stage_flake_script(*command, flake_source@, remote_flake_source@)),
        ),
{
    let q = shell_quote(remote_flake_source);
    let mut remote_script = owned("set -euo pipefail; rm -rf ");
    remote_script.append(q.as_str());
    remote_script.append("; mkdir -p ");
    remote_script.append(q.as_str());
    remote_script.append("; tar -xzf - -C ");
    remote_script.append(q.as_str());
    assert(remote_script@ =~= unpack_flake_script(remote_flake_source@));
    let mut ssh: Vec<String> = Vec::new();
    ssh.push(owned("ssh"));
    assert(ssh.deep_view() =~= seq!["ssh"@]);
    push_option_args(&mut ssh, &command.ssh_options);
    let ghost before = ssh.deep_view();
    ssh.push(owned(command.target.as_str()));
    let ghost rv = remote_script@;
    ssh.push(remote_script);
    assert(ssh.deep_view() =~= seq!["ssh"@] + opts(*command) + seq![command.target@, rv]);
    let remote = shell_command(&ssh);
    let mut tar: Vec<String> = Vec::new();
    tar.push(owned("tar"));
    tar.push(owned("-C"));
    tar.push(owned(flake_source));
    tar.push(owned("--exclude"));
    tar.push(owned(".git"));
    tar.push(owned("--exclude"));
    tar.push(owned(".jj"));
    tar.push(owned("-czf"));
    tar.push(owned("-"));
    tar.push(owned("."));
    assert(tar.deep_view() =~= seq![
        "tar"@,
        "-C"@,
        flake_source@,
        "--exclude"@,
        ".git"@,
        "--exclude"@,
        ".jj"@,
        "-czf"@,
        "-"@,
        "."@,
    ]);
    let mut line = shell_command(&tar);
    line.append(" | ");
    line.append(remote.as_str());
    assert(line@ =~= stage_flake_script(*command, flake_source@, remote_flake_source@));
    let mut shv: Vec<String> = Vec::new();
    shv.push(owned("sh"));
    shv.push(owned("-c"));
    let ghost lv = line@;
    shv.push(line);
    assert(shv.deep_view() =~= sh_argv(lv));
    local_command(
        Phase::StageInstall,
        "upload local flake source into the installer",
        false,
        shv,
    )
}

/// Where the `i`-th known_hosts file is uploaded.
pub open spec fn known_hosts_upload_path(workdir: Seq<char>, i: nat) -> Seq<char> {
    workdir + "/installer-known-hosts-"@ + decimal(i)
}

/// Where the known_hosts files are concatenated.
pub open spec fn known_hosts_merged_path(workdir: Seq<char>) -> Seq<char> {
    workdir + "/installer-known-hosts"@
}

/// The upload paths of the first `n` known_hosts files.
pub open spec fn known_hosts_upload_paths(workdir: Seq<char>, n: nat) -> Seq<Seq<char>> {
    Seq::new(n, |i: int| known_hosts_upload_path(workdir, i as nat))
}

/// The remote fragment that installs the uploaded known_hosts files.
pub open spec fn install_known_hosts_script(workdir: Seq<char>, n: nat) -> Seq<char> {
    let quoted = known_hosts_upload_paths(workdir, n).map_values(
        |p: Seq<char>| shell_quoted(p),
    );
    let merged = shell_quoted(known_hosts_merged_path(workdir));
    "set -euo pipefail; install -d -m 0700 /root/.ssh; install -d -m 0755 /etc/ssh; cat "@
        + seq_join(quoted, " "@) + " > "@ + merged
        + "; install -o root -g root -m 0644 "@ + merged + " /root/.ssh/known_hosts; install -o root -g root -m 0644 "@
        + merged + " /etc/ssh/ssh_known_hosts; rm -f "@ + seq_join(quoted.push(merged), " "@)
}

/// The upload of the `i`-th known_hosts file.
pub open spec fn known_hosts_upload(c: SshCommand, i: int) -> crate::model::CommandModel {
    let path = known_hosts_upload_path(c.remote_workdir@, i as nat);
    command_model(
        Phase::StageInstall,
        "upload SSH known_hosts for installer-side flake fetches"@,
        true,
        sh_argv(
            upload_line(
                c,
                shell_quoted(c.installer_known_hosts_files.deep_view()[i]),
                path,
                dir_of(path),
                "0644"@,
            ),
        ),
    )
}

/// The commands that stage known_hosts files: one upload per file, then
/// one SSH command that installs them; nothing when there are none.
pub open spec fn known_hosts_commands(c: SshCommand) -> Seq<crate::model::CommandModel> {
    let n = c.installer_known_hosts_files@.len();
    if n == 0 {
        Seq::empty()
    } else {
        Seq::new(n, |i: int| known_hosts_upload(c, i)).push(
            command_model(
                Phase::StageInstall,
                "install SSH known_hosts into the kexec installer"@,
                false,
                ssh_argv(c, false, install_known_hosts_script(c.remote_workdir@, n)),
            ),
        )
    }
}

fn known_hosts_path(workdir: &str, i: usize) -> (res: String)
    ensures
        res@ == known_hosts_upload_path(workdir@, i as nat),
{
    let mut p = owned(workdir);
    p.append("/installer-known-hosts-");
    push_decimal(&mut p, i);
    p
}

/// Stages the known_hosts files before anything in the installer fetches flakes.
pub fn installer_known_hosts_commands(command: &SshCommand) -> (res: Vec<PlanCommand>)
    ensures
        res.deep_view() == known_hosts_commands(*command),
{
    let n = command.installer_known_hosts_files.len();
    if n == 0 {
        let v: Vec<PlanCommand> = Vec::new();
        assert(v.deep_view() =~= known_hosts_commands(*command));
        return v;
    }
    let ghost paths = known_hosts_upload_paths(command.remote_workdir@, n as nat);
    let ghost quoted = paths.map_values(|p: Seq<char>| shell_quoted(p));
    let mut commands: Vec<PlanCommand> = Vec::new();
    let mut quoted_paths: Vec<String> = Vec::new();
    let mut i: usize = 0;
    while i < n
        invariant
            n == command.installer_known_hosts_files@.len(),
            paths == known_hosts_upload_paths(command.remote_workdir@, n as nat),
            quoted == paths.map_values(|p: Seq<char>| shell_quoted(p)),
            0 <= i <= n,
            commands@.len() == i,
            forall|j: int| 0 <= j < i ==> #[trigger] commands@[j]@ == known_hosts_upload(*command, j),
            quoted_paths@.len() == i,
            forall|j: int| 0 <= j < i ==> #[trigger] quoted_paths@[j]@ == quoted[j],
        decreases n - i,
    {
        let path = known_hosts_path(command.remote_workdir.as_str(), i);
        let cmd = upload_file_via_ssh_stdin_command(
            command,
            Phase::StageInstall,
            "upload SSH known_hosts for installer-side flake fetches",
            command.installer_known_hosts_files[i].as_str(),
            path.as_str(),
            "0644",
        );
        commands.push(cmd);
        quoted_paths.push(shell_quote(path.as_str()));
        i += 1;
    }
    assert(commands.deep_view() =~= Seq::new(n as nat, |j: int| known_hosts_upload(*command, j)));
    assert(quoted_paths.deep_view() =~= quoted);
    let inputs = crate::text::join(&quoted_paths, " ");
    let mut merged = owned(command.remote_workdir.as_str());
    merged.append("/installer-known-hosts");
    let qm = shell_quote(merged.as_str());
    let ghost qmv = qm@;
    quoted_paths.push(owned(qm.as_str()));
    assert(quoted_paths.deep_view() =~= quoted.push(qmv));
    let cleanup = crate::text::join(&quoted_paths, " ");
    let mut script = owned(
        "set -euo pipefail; install -d -m 0700 /root/.ssh; install -d -m 0755 /etc/ssh; cat ",
    );
    script.append(inputs.as_str());
    script.append(" > ");
    script.append(qm.as_str());
    script.append("; install -o root -g root -m 0644 ");
    script.append(qm.as_str());
    script.append(" /root/.ssh/known_hosts; install -o root -g root -m 0644 ");
    script.append(qm.as_str());
    script.append(" /etc/ssh/ssh_known_hosts; rm -f ");
    script.append(cleanup.as_str());
    assert(script@ =~= install_known_hosts_script(command.remote_workdir@, n as nat));
    commands.push(
        ssh_command(
            command,
            Phase::StageInstall,
            "install SSH known_hosts into the kexec installer",
            false,
            script,
        ),
    );
    assert(commands.deep_view() =~= known_hosts_commands(*command));
    commands
}

} // verus!
