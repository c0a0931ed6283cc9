//! Host identity: the SSH host key installed into the target, the identity
//! hook that learns of it, and the rollback hook armed while the deployment
//! runs.
use vstd::prelude::*;
use vstd::string::*;

use crate::commands::{
    command_model, local_command, raw_argv, raw_script_argv, sh_argv, ssh_argv, ssh_command,
};
use crate::facts::{append_pub_suffix, is_file, missing_file_message, path_is_file, pub_suffixed, require_file};
use crate::model::{AppError, CommandModel, PathProbe, Phase, PlanCommand, SshCommand};
use crate::quote::{shell_quote, shell_quoted};
use crate::staging::{
    dir_of, double_quoted, upload_file_via_ssh_stdin_command, upload_line,
    upload_variable_file_via_ssh_stdin_command,
};
use crate::text::{chars_of, find, find_in, owned, string_of_range, trim, trim_str};

verus! {

/// The local shell variable that holds the generated private host key's path.
pub const GENERATED_HOST_KEY_VAR: &'static str = "$NIXOS_KEXEC_HOST_KEY";

/// The local shell variable that holds the generated public host key's path.
pub const GENERATED_HOST_KEY_PUBLIC_VAR: &'static str = "$NIXOS_KEXEC_HOST_KEY_PUBLIC";

/// A host key is given or generated.
pub open spec fn has_identity(c: SshCommand) -> bool {
    c.host_key is Some || c.generate_host_key
}

/// Whether the deployment installs a host identity.
pub fn has_host_identity(command: &SshCommand) -> (res: bool)
    ensures
        res == has_identity(*command),
{
    command.host_key.is_some() || command.generate_host_key
}

/// The public host key to install: the one given, which must be a file, or
/// else the host key's `.pub` sibling when that is a file.
pub open spec fn host_key_public_outcome(c: SshCommand, probes: Seq<PathProbe>) -> Result<
    Option<Seq<char>>,
    Seq<char>,
> {
    match c.host_key_public {
        Some(p) => if is_file(probes, p@) {
            Ok(Some(p@))
        } else {
            Err(missing_file_message("host public key"@, p@))
        },
        None => match c.host_key {
            None => Ok(None),
            Some(k) => if is_file(probes, pub_suffixed(k@)) {
                Ok(Some(pub_suffixed(k@)))
            } else {
                Ok(None)
            },
        },
    }
}

/// The public host key to install, if any.
pub fn effective_host_key_public(command: &SshCommand, probes: &Vec<PathProbe>) -> (res: Result<
    Option<String>,
    AppError,
>)
    ensures
        match res {
            Ok(o) => host_key_public_outcome(*command, probes@) == Ok::<
                Option<Seq<char>>,
                Seq<char>,
            >(o.deep_view()),
            Err(e) => host_key_public_outcome(*command, probes@) == Err::<
                Option<Seq<char>>,
                Seq<char>,
            >(e.text()),
        },
{
    if let Some(path) = &command.host_key_public {
        match require_file("host public key", path.as_str(), probes) {
            Ok(()) => {},
            Err(e) => {
                return Err(e);
            },
        }
        return Ok(Some(owned(path.as_str())));
    }
    match &command.host_key {
        None => Ok(None),
        Some(host_key) => {
            let public_key = append_pub_suffix(host_key.as_str());
            if path_is_file(probes, public_key.as_str()) {
                Ok(Some(public_key))
            } else {
                Ok(None)
            }
        },
    }
}

/// The text after the first `#` of a flake reference, when there is one
/// and it is not empty.
pub open spec fn flake_fragment(flake: Seq<char>) -> Option<Seq<char>> {
    match find(flake, seq!['#']) {
        Some(k) => if k + 1 < flake.len() {
            Some(flake.skip(k + 1))
        } else {
            None
        },
        None => None,
    }
}

/// Splits a flake reference at its first `#`: the fragment after it.
pub fn fragment_after_hash(flake: &str) -> (res: Option<String>)
    ensures
        res matches Some(f) ==> find(flake@, seq!['#']) matches Some(k) && f@ == flake@.skip(k + 1),
        res is None ==> find(flake@, seq!['#']) is None,
{
    let v = chars_of(flake);
    let mut pat: Vec<char> = Vec::new();
    pat.push('#');
    assert(pat@ =~= seq!['#']);
    match find_in(&v, &pat) {
        Some(k) => {
            proof {
                crate::text::lemma_find(v@, pat@);
            }
            let n = v.len();
            assert(k + 1 <= n);
            let f = string_of_range(&v, k + 1, n);
            assert(f@ =~= flake@.skip(k + 1));
            Some(f)
        },
        None => None,
    }
}

/// The logical host name handed to identity hooks.
pub open spec fn identity_host_outcome(c: SshCommand) -> Result<Option<Seq<char>>, Seq<char>> {
    match c.identity_host {
        Some(h) => if trim(h@).len() == 0 {
            Err("--identity-host cannot be empty"@)
        } else {
            Ok(Some(trim(h@)))
        },
        None => if c.identity_hook is None && !c.generate_host_key {
            Ok(None)
        } else {
            Ok(flake_fragment(c.flake@))
        },
    }
}

/// The logical host name: the one given, trimmed, else the flake fragment
/// when a hook or a generated key needs one.
pub fn effective_identity_host(command: &SshCommand) -> (res: Result<Option<String>, AppError>)
    ensures
        match res {
            Ok(o) => identity_host_outcome(*command) == Ok::<Option<Seq<char>>, Seq<char>>(
                o.deep_view(),
            ),
            Err(e) => identity_host_outcome(*command) == Err::<Option<Seq<char>>, Seq<char>>(
                e.text(),
            ),
        },
{
    if let Some(host) = &command.identity_host {
        let trimmed = trim_str(host.as_str());
        if trimmed.as_str().is_empty() {
            return Err(AppError::Message(owned("--identity-host cannot be empty")));
        }
        return Ok(Some(trimmed));
    }
    if command.identity_hook.is_none() && !command.generate_host_key {
        return Ok(None);
    }
    proof {
        crate::text::lemma_find(command.flake@, seq!['#']);
    }
    match fragment_after_hash(command.flake.as_str()) {
        Some(f) => {
            if f.as_str().is_empty() {
                assert(flake_fragment(command.flake@) is None);
                Ok(None)
            } else {
                assert(flake_fragment(command.flake@) == Some(f@));
                Ok(Some(f))
            }
        },
        None => Ok(None),
    }
}

pub const GENERATE_KEY_HEAD: &'static str = "NIXOS_KEXEC_HOST_KEY_DIR=$(mktemp -d \"${TMPDIR:-/tmp}/nixos-kexec-host-key.XXXXXX\"); export NIXOS_KEXEC_HOST_KEY_DIR; NIXOS_KEXEC_IDENTITY_STATE_DIR=\"$NIXOS_KEXEC_HOST_KEY_DIR\"; export NIXOS_KEXEC_IDENTITY_STATE_DIR; chmod 700 \"$NIXOS_KEXEC_HOST_KEY_DIR\"; cleanup_nixos_kexec_host_key() { if [ -n \"${NIXOS_KEXEC_HOST_KEY_DIR:-}\" ]; then rm -rf -- \"$NIXOS_KEXEC_HOST_KEY_DIR\"; fi; }; trap cleanup_nixos_kexec_host_key EXIT; NIXOS_KEXEC_HOST_KEY=\"$NIXOS_KEXEC_HOST_KEY_DIR/ssh_host_ed25519_key\"; NIXOS_KEXEC_HOST_KEY_PUBLIC=\"$NIXOS_KEXEC_HOST_KEY.pub\"; export NIXOS_KEXEC_HOST_KEY NIXOS_KEXEC_HOST_KEY_PUBLIC; ssh-keygen -q -t ed25519 -N '' -C ";

pub const GENERATE_KEY_TAIL: &'static str = " -f \"$NIXOS_KEXEC_HOST_KEY\"; chmod 600 \"$NIXOS_KEXEC_HOST_KEY\"; chmod 644 \"$NIXOS_KEXEC_HOST_KEY_PUBLIC\"";

/// The comment of a generated host key.
pub open spec fn key_comment(identity_host: Option<Seq<char>>) -> Seq<char> {
    match identity_host {
        Some(h) => "root@"@ + h + " bootstrap host key"@,
        None => "nixos-kexec bootstrap host key"@,
    }
}

/// The local fragment that generates a temporary host key and removes it on exit.
pub open spec fn generate_key_script(identity_host: Option<Seq<char>>) -> Seq<char> {
    GENERATE_KEY_HEAD@ + shell_quoted(key_comment(identity_host)) + GENERATE_KEY_TAIL@
}

/// The command that generates the temporary host key.
pub open spec fn generate_key_model(identity_host: Option<Seq<char>>) -> CommandModel {
    command_model(
        Phase::StageHostIdentity,
        "generate temporary SSH host key for target install"@,
        true,
        raw_argv(generate_key_script(identity_host)),
    )
}

/// Generates a temporary SSH host key in a private local directory.
pub fn generate_host_key_command(_command: &SshCommand, identity_host: &Option<String>) -> (res: PlanCommand)
    ensures
        res@ == generate_key_model(identity_host.deep_view()),
{
    let comment = match identity_host {
        Some(host) => {
            let mut c = owned("root@");
            c.append(host.as_str());
            c.append(" bootstrap host key");
            c
        },
        None => owned("nixos-kexec bootstrap host key"),
    };
    let mut script = owned(GENERATE_KEY_HEAD);
    script.append(shell_quote(comment.as_str()).as_str());
    script.append(GENERATE_KEY_TAIL);
    local_command(
        Phase::StageHostIdentity,
        "generate temporary SSH host key for target install",
        true,
        raw_script_argv(script),
    )
}

pub const IDENTITY_STATE_SCRIPT: &'static str = "NIXOS_KEXEC_IDENTITY_STATE_DIR=$(mktemp -d \"${TMPDIR:-/tmp}/nixos-kexec-identity.XXXXXX\"); export NIXOS_KEXEC_IDENTITY_STATE_DIR; chmod 700 \"$NIXOS_KEXEC_IDENTITY_STATE_DIR\"; cleanup_nixos_kexec_identity_state() { if [ -n \"${NIXOS_KEXEC_IDENTITY_STATE_DIR:-}\" ]; then rm -rf -- \"$NIXOS_KEXEC_IDENTITY_STATE_DIR\"; fi; }; trap cleanup_nixos_kexec_identity_state EXIT";

/// The command that creates the identity hook's state directory.
pub open spec fn identity_state_model() -> CommandModel {
    command_model(
        Phase::StageHostIdentity,
        "create temporary identity hook state directory"@,
        true,
        raw_argv(IDENTITY_STATE_SCRIPT@),
    )
}

/// Creates a private state directory for the identity hook, removed on exit.
pub fn identity_state_command() -> (res: PlanCommand)
    ensures
        res@ == identity_state_model(),
{
    local_command(
        Phase::StageHostIdentity,
        "create temporary identity hook state directory",
        true,
        raw_script_argv(owned(IDENTITY_STATE_SCRIPT)),
    )
}

pub const IDENTITY_ENV_HEAD: &'static str = "NIXOS_KEXEC_IDENTITY_HOST=";

pub const IDENTITY_ENV_MIDDLE: &'static str = "; export NIXOS_KEXEC_IDENTITY_HOST; NIXOS_KEXEC_IDENTITY_STATE_DIR=\"${NIXOS_KEXEC_IDENTITY_STATE_DIR:-}\"; export NIXOS_KEXEC_IDENTITY_STATE_DIR; NIXOS_KEXEC_SSH_PUBLIC_KEY_FILE=";

pub const IDENTITY_ENV_TAIL: &'static str = "; export NIXOS_KEXEC_SSH_PUBLIC_KEY_FILE; if [ -n \"$NIXOS_KEXEC_SSH_PUBLIC_KEY_FILE\" ] && [ -f \"$NIXOS_KEXEC_SSH_PUBLIC_KEY_FILE\" ]; then NIXOS_KEXEC_SSH_PUBLIC_KEY=$(cat \"$NIXOS_KEXEC_SSH_PUBLIC_KEY_FILE\"); else NIXOS_KEXEC_SSH_PUBLIC_KEY=''; fi; export NIXOS_KEXEC_SSH_PUBLIC_KEY; if [ -n \"$NIXOS_KEXEC_SSH_PUBLIC_KEY\" ] && command -v ssh-to-age >/dev/null 2>&1; then NIXOS_KEXEC_AGE_RECIPIENT=$(printf '%s\\n' \"$NIXOS_KEXEC_SSH_PUBLIC_KEY\" | ssh-to-age 2>/dev/null || true); else NIXOS_KEXEC_AGE_RECIPIENT=''; fi; export NIXOS_KEXEC_AGE_RECIPIENT";

/// The public key file handed to hooks: the generated one's variable, else
/// the given public key quoted, else nothing.
pub open spec fn public_key_file_word(c: SshCommand, public_key: Option<Seq<char>>) -> Seq<char> {
    if c.generate_host_key {
        GENERATED_HOST_KEY_PUBLIC_VAR@
    } else {
        match public_key {
            Some(p) => shell_quoted(p),
            None => Seq::empty(),
        }
    }
}

/// The fragment that exports the identity environment of the hooks.
pub open spec fn identity_env(
    c: SshCommand,
    identity_host: Option<Seq<char>>,
    public_key: Option<Seq<char>>,
) -> Seq<char> {
    IDENTITY_ENV_HEAD@ + shell_quoted(
        match identity_host {
            Some(h) => h,
            None => Seq::empty(),
        },
    ) + IDENTITY_ENV_MIDDLE@ + public_key_file_word(c, public_key) + IDENTITY_ENV_TAIL@
}

/// Exports the identity environment of the hooks.
pub fn identity_environment_script(
    command: &SshCommand,
    identity_host: &Option<String>,
    static_public_key: &Option<String>,
) -> (res: String)
    ensures
        res@ == identity_env(*command, identity_host.deep_view(), static_public_key.deep_view()),
{
    let public_key_file = if command.generate_host_key {
        owned(GENERATED_HOST_KEY_PUBLIC_VAR)
    } else {
        match static_public_key {
            Some(p) => shell_quote(p.as_str()),
            None => String::new(),
        }
    };
    let host = match identity_host {
        Some(h) => shell_quote(h.as_str()),
        None => shell_quote(""),
    };
    proof {
        reveal_strlit("");
        assert(""@ =~= Seq::<char>::empty());
    }
    let mut res = owned(IDENTITY_ENV_HEAD);
    res.append(host.as_str());
    res.append(IDENTITY_ENV_MIDDLE);
    res.append(public_key_file.as_str());
    res.append(IDENTITY_ENV_TAIL);
    res
}

/// The fragment that runs the identity hook.
pub open spec fn identity_hook_script(
    c: SshCommand,
    hook: Seq<char>,
    identity_host: Option<Seq<char>>,
    public_key: Option<Seq<char>>,
) -> Seq<char> {
    "set -euo pipefail; "@ + identity_env(c, identity_host, public_key)
        + "; NIXOS_KEXEC_IDENTITY_HOOK_EVENT=apply; export NIXOS_KEXEC_IDENTITY_HOOK_EVENT; "@ + hook
}

/// The command that runs the identity hook.
pub open spec fn identity_hook_model(
    c: SshCommand,
    hook: Seq<char>,
    identity_host: Option<Seq<char>>,
    public_key: Option<Seq<char>>,
) -> CommandModel {
    command_model(
        Phase::StageHostIdentity,
        "run host identity hook"@,
        true,
        sh_argv(identity_hook_script(c, hook, identity_host, public_key)),
    )
}

/// Runs the identity hook with the identity environment.
pub fn identity_hook_command(
    command: &SshCommand,
    hook: &str,
    identity_host: &Option<String>,
    static_public_key: &Option<String>,
) -> (res: PlanCommand)
    ensures
        res@ == identity_hook_model(
            *command,
            hook@,
            identity_host.deep_view(),
            static_public_key.deep_view(),
        ),
{
    let env = identity_environment_script(command, identity_host, static_public_key);
    let mut script = owned("set -euo pipefail; ");
    script.append(env.as_str());
    script.append("; NIXOS_KEXEC_IDENTITY_HOOK_EVENT=apply; export NIXOS_KEXEC_IDENTITY_HOOK_EVENT; ");
    script.append(hook);
    let mut argv: Vec<String> = Vec::new();
    argv.push(owned("sh"));
    argv.push(owned("-c"));
    let ghost sv = script@;
    argv.push(script);
    assert(argv.deep_view() =~= sh_argv(sv));
    local_command(Phase::StageHostIdentity, "run host identity hook", true, argv)
}

pub const ROLLBACK_HEAD: &'static str = "; nixos_kexec_identity_rollback() { status=$?; if [ \"$status\" -ne 0 ] && [ \"${NIXOS_KEXEC_IDENTITY_ROLLBACK_ARMED:-0}\" = 1 ]; then echo 'nixos-kexec: running identity rollback hook after deployment failure' >&2; NIXOS_KEXEC_IDENTITY_HOOK_EVENT=rollback; export NIXOS_KEXEC_IDENTITY_HOOK_EVENT; ";

pub const ROLLBACK_TAIL: &'static str = " || echo 'nixos-kexec: identity rollback hook failed' >&2; fi; if command -v cleanup_nixos_kexec_host_key >/dev/null 2>&1; then cleanup_nixos_kexec_host_key; fi; if command -v cleanup_nixos_kexec_identity_state >/dev/null 2>&1; then cleanup_nixos_kexec_identity_state; fi; exit \"$status\"; }; NIXOS_KEXEC_IDENTITY_ROLLBACK_ARMED=1; export NIXOS_KEXEC_IDENTITY_ROLLBACK_ARMED; trap nixos_kexec_identity_rollback EXIT";

/// The fragment that arms the rollback hook as the exit trap.
pub open spec fn rollback_trap_script(
    c: SshCommand,
    rollback_hook: Seq<char>,
    identity_host: Option<Seq<char>>,
    public_key: Option<Seq<char>>,
) -> Seq<char> {
    "set -euo pipefail; "@ + identity_env(c, identity_host, public_key) + ROLLBACK_HEAD@
        + rollback_hook + ROLLBACK_TAIL@
}

/// The command that arms the rollback hook.
pub open spec fn rollback_trap_model(
    c: SshCommand,
    rollback_hook: Seq<char>,
    identity_host: Option<Seq<char>>,
    public_key: Option<Seq<char>>,
) -> CommandModel {
    command_model(
        Phase::StageHostIdentity,
        "arm identity rollback hook"@,
        true,
        raw_argv(rollback_trap_script(c, rollback_hook, identity_host, public_key)),
    )
}

/// Arms the rollback hook: it runs when the script exits with a failure
/// while armed.
pub fn identity_rollback_trap_command(
    command: &SshCommand,
    rollback_hook: &str,
    identity_host: &Option<String>,
    static_public_key: &Option<String>,
) -> (res: PlanCommand)
    ensures
        res@ == rollback_trap_model(
            *command,
            rollback_hook@,
            identity_host.deep_view(),
            static_public_key.deep_view(),
        ),
{
    let env = identity_environment_script(command, identity_host, static_public_key);
    let mut script = owned("set -euo pipefail; ");
    script.append(env.as_str());
    script.append(ROLLBACK_HEAD);
    script.append(rollback_hook);
    script.append(ROLLBACK_TAIL);
    local_command(
        Phase::StageHostIdentity,
        "arm identity rollback hook",
        true,
        raw_script_argv(script),
    )
}

/// The command that disarms the rollback hook.
pub open spec fn disarm_model() -> CommandModel {
    command_model(
        Phase::StageHostIdentity,
        "disarm identity rollback hook after successful deployment"@,
        true,
        raw_argv("NIXOS_KEXEC_IDENTITY_ROLLBACK_ARMED=0"@),
    )
}

/// Disarms the rollback hook once the deployment has succeeded.
pub fn disarm_identity_rollback_command() -> (res: PlanCommand)
    ensures
        res@ == disarm_model(),
{
    local_command(
        Phase::StageHostIdentity,
        "disarm identity rollback hook after successful deployment",
        true,
        raw_script_argv(owned("NIXOS_KEXEC_IDENTITY_ROLLBACK_ARMED=0")),
    )
}

/// An upload over SSH standard input, as a command.
pub open spec fn upload_model(
    c: SshCommand,
    phase: Phase,
    description: Seq<char>,
    source: Seq<char>,
    path: Seq<char>,
    mode: Seq<char>,
) -> CommandModel {
    command_model(phase, description, true, sh_argv(upload_line(c, source, path, dir_of(path), mode)))
}

/// Where the host keys wait in the installer.
pub open spec fn remote_identity_dir(c: SshCommand) -> Seq<char> {
    c.remote_workdir@ + "/host-identity"@
}

pub open spec fn remote_private_key(c: SshCommand) -> Seq<char> {
    remote_identity_dir(c) + "/ssh_host_ed25519_key"@
}

pub open spec fn remote_public_key(c: SshCommand) -> Seq<char> {
    remote_private_key(c) + ".pub"@
}

/// The SSH directory of the mounted target.
pub open spec fn target_ssh_dir(c: SshCommand) -> Seq<char> {
    c.target_root@ + "/etc/ssh"@
}

pub open spec fn target_private_key(c: SshCommand) -> Seq<char> {
    target_ssh_dir(c) + "/ssh_host_ed25519_key"@
}

pub open spec fn target_public_key(c: SshCommand) -> Seq<char> {
    target_private_key(c) + ".pub"@
}

/// The uploads of the host keys into the installer.
pub open spec fn host_key_uploads(c: SshCommand, public_key: Option<Seq<char>>) -> Seq<
    CommandModel,
> {
    if c.generate_host_key {
        seq![
            upload_model(
                c,
                Phase::StageHostIdentity,
                "upload generated private SSH host key into the installer workdir"@,
                double_quoted(GENERATED_HOST_KEY_VAR@),
                remote_private_key(c),
                "0600"@,
            ),
            upload_model(
                c,
                Phase::StageHostIdentity,
                "upload generated public SSH host key into the installer workdir"@,
                double_quoted(GENERATED_HOST_KEY_PUBLIC_VAR@),
                remote_public_key(c),
                "0644"@,
            ),
        ]
    } else {
        match c.host_key {
            Some(k) => seq![
                upload_model(
                    c,
                    Phase::StageHostIdentity,
                    "upload private SSH host key into the installer workdir"@,
                    shell_quoted(k@),
                    remote_private_key(c),
                    "0600"@,
                ),
            ] + match public_key {
                Some(p) => seq![
                    upload_model(
                        c,
                        Phase::StageHostIdentity,
                        "upload public SSH host key into the installer workdir"@,
                        shell_quoted(p),
                        remote_public_key(c),
                        "0644"@,
                    ),
                ],
                None => Seq::empty(),
            },
            None => Seq::empty(),
        }
    }
}

/// The remote fragment that installs the host keys into the mounted target,
/// checks the private key's mode and owner, and removes the staged copies.
pub open spec fn install_host_key_script(c: SshCommand, public_key: Option<Seq<char>>) -> Seq<
    char,
> {
    "set -euo pipefail; install -d -m 0755 "@ + shell_quoted(target_ssh_dir(c))
        + "; install -o root -g root -m 0600 "@ + shell_quoted(remote_private_key(c)) + " "@
        + shell_quoted(target_private_key(c)) + (if c.generate_host_key || public_key is Some {
        "; install -o root -g root -m 0644 "@ + shell_quoted(remote_public_key(c)) + " "@
            + shell_quoted(target_public_key(c))
    } else {
        Seq::empty()
    }) + "; test \"$(stat -c '%a' "@ + shell_quoted(target_private_key(c)) + ")\" = 600; test \"$(stat -c '%U:%G' "@
        + shell_quoted(target_private_key(c)) + ")\" = root:root"@ + "; rm -rf "@ + shell_quoted(
        remote_identity_dir(c),
    )
}

/// The commands that install the host identity into the mounted target.
pub open spec fn host_identity_models(c: SshCommand, public_key: Option<Seq<char>>) -> Seq<
    CommandModel,
> {
    if !has_identity(c) {
        Seq::empty()
    } else {
        host_key_uploads(c, public_key).push(
            command_model(
                Phase::StageHostIdentity,
                "install SSH host key into the mounted target"@,
                true,
                ssh_argv(c, true, install_host_key_script(c, public_key)),
            ),
        )
    }
}

fn generated_key_uploads(command: &SshCommand, remote_private: &str, remote_public: &str) -> (res:
    Vec<PlanCommand>)
    requires
        command.generate_host_key,
        remote_private@ == remote_private_key(*command),
        remote_public@ == remote_public_key(*command),
    ensures
        res.deep_view() == host_key_uploads(*command, None),
{
    let mut commands: Vec<PlanCommand> = Vec::new();
    let a = upload_variable_file_via_ssh_stdin_command(
        command,
        Phase::StageHostIdentity,
        "upload generated private SSH host key into the installer workdir",
        GENERATED_HOST_KEY_VAR,
        remote_private,
        "0600",
    );
    let b = upload_variable_file_via_ssh_stdin_command(
        command,
        Phase::StageHostIdentity,
        "upload generated public SSH host key into the installer workdir",
        GENERATED_HOST_KEY_PUBLIC_VAR,
        remote_public,
        "0644",
    );
    let ghost av = a@;
    let ghost bv = b@;
    commands.push(a);
    commands.push(b);
    assert(commands.deep_view() =~= seq![av, bv]);
    commands
}

#[verifier::rlimit(40)]
fn static_key_uploads(
    command: &SshCommand,
    private_key: &str,
    public_key: &Option<String>,
    remote_private: &str,
    remote_public: &str,
) -> (res: Vec<PlanCommand>)
    requires
        !command.generate_host_key,
        command.host_key matches Some(k) && k@ == private_key@,
        remote_private@ == remote_private_key(*command),
        remote_public@ == remote_public_key(*command),
    ensures
        res.deep_view() == host_key_uploads(*command, public_key.deep_view()),
{
    let mut commands: Vec<PlanCommand> = Vec::new();
    let a = upload_file_via_ssh_stdin_command(
        command,
        Phase::StageHostIdentity,
        "upload private SSH host key into the installer workdir",
        private_key,
        remote_private,
        "0600",
    );
    let ghost av = a@;
    commands.push(a);
    assert(commands.deep_view() =~= seq![av]);
    if let Some(p) = public_key {
        let b = upload_file_via_ssh_stdin_command(
            command,
            Phase::StageHostIdentity,
            "upload public SSH host key into the installer workdir",
            p.as_str(),
            remote_public,
            "0644",
        );
        let ghost bv = b@;
        commands.push(b);
        assert(commands.deep_view() =~= seq![av, bv]);
    }
    commands
}

fn host_key_upload_commands(
    command: &SshCommand,
    public_key: &Option<String>,
    remote_private: &str,
    remote_public: &str,
) -> (res: Vec<PlanCommand>)
    requires
        has_identity(*command),
        remote_private@ == remote_private_key(*command),
        remote_public@ == remote_public_key(*command),
    ensures
        res.deep_view() == host_key_uploads(*command, public_key.deep_view()),
{
    if command.generate_host_key {
        generated_key_uploads(command, remote_private, remote_public)
    } else {
        match &command.host_key {
            Some(k) => static_key_uploads(command, k.as_str(), public_key, remote_private, remote_public),
            None => Vec::new(),
        }
    }
}

fn install_host_key(
    command: &SshCommand,
    public_key: &Option<String>,
    remote_dir: &str,
    remote_private: &str,
    remote_public: &str,
) -> (res: String)
    requires
        remote_dir@ == remote_identity_dir(*command),
        remote_private@ == remote_private_key(*command),
        remote_public@ == remote_public_key(*command),
    ensures
        res@ == install_host_key_script(*command, public_key.deep_view()),
{
    let mut target_dir = owned(command.target_root.as_str());
    target_dir.append("/etc/ssh");
    let mut target_private = owned(target_dir.as_str());
    target_private.append("/ssh_host_ed25519_key");
    let mut target_public = owned(target_private.as_str());
    target_public.append(".pub");
    let qtp = shell_quote(target_private.as_str());
    let mut script = owned("set -euo pipefail; install -d -m 0755 ");
    script.append(shell_quote(target_dir.as_str()).as_str());
    script.append("; install -o root -g root -m 0600 ");
    script.append(shell_quote(remote_private).as_str());
    script.append(" ");
    script.append(qtp.as_str());
    let ghost head = script@;
    if command.generate_host_key || public_key.is_some() {
        script.append("; install -o root -g root -m 0644 ");
        script.append(shell_quote(remote_public).as_str());
        script.append(" ");
        script.append(shell_quote(target_public.as_str()).as_str());
    }
    let ghost middle = script@;
    script.append("; test \"$(stat -c '%a' ");
    script.append(qtp.as_str());
    script.append(")\" = 600; test \"$(stat -c '%U:%G' ");
    script.append(qtp.as_str());
    script.append(")\" = root:root");
    script.append("; rm -rf ");
    script.append(shell_quote(remote_dir).as_str());
    assert(script@ =~= install_host_key_script(*command, public_key.deep_view()));
    script
}

/// Uploads the host keys and installs them into the mounted target.
pub fn host_identity_commands(command: &SshCommand, public_key: &Option<String>) -> (res: Vec<
    PlanCommand,
>)
    ensures
        res.deep_view() == host_identity_models(*command, public_key.deep_view()),
{
    if !has_host_identity(command) {
        let commands: Vec<PlanCommand> = Vec::new();
        assert(commands.deep_view() =~= host_identity_models(*command, public_key.deep_view()));
        return commands;
    }
    let mut remote_dir = owned(command.remote_workdir.as_str());
    remote_dir.append("/host-identity");
    let mut remote_private = owned(remote_dir.as_str());
    remote_private.append("/ssh_host_ed25519_key");
    let mut remote_public = owned(remote_private.as_str());
    remote_public.append(".pub");
    let mut commands = host_key_upload_commands(
        command,
        public_key,
        remote_private.as_str(),
        remote_public.as_str(),
    );
    let script = install_host_key(
        command,
        public_key,
        remote_dir.as_str(),
        remote_private.as_str(),
        remote_public.as_str(),
    );
    let ghost before = commands.deep_view();
    commands.push(
        ssh_command(
            command,
            Phase::StageHostIdentity,
            "install SSH host key into the mounted target",
            true,
            script,
        ),
    );
    assert(commands.deep_view() =~= before.push(commands@[before.len() as int]@));
    commands
}

} // verus!
