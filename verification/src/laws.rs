//! Properties of the plans as a whole: which options are accepted together,
//! what the mutating subcommands refuse, the order of the workflow and its
//! milestones, which SSH commands get a TTY, the install handoff, and the
//! install strategy.
use vstd::prelude::*;

use crate::commands::RAW_SCRIPT_SENTINEL;
use crate::consent::{build_outcome, run_outcome, BUILD_REFUSAL, RUN_REFUSAL};
use crate::facts::is_file;
use crate::identity::{
    disarm_model, generate_key_model, has_identity, host_identity_models, host_key_public_outcome,
    host_key_uploads, identity_hook_model, identity_host_outcome, identity_state_model,
    rollback_trap_model,
};
use crate::installer::installer_outcome;
use crate::kexec::kexec_append_outcome;
use crate::model::{
    CommandModel, InstallStrategy, InstallerFacts, InstallerPlanModel, InstallerRunCommand,
    LocalFacts, Phase, SshCommand, SshRunCommand,
};
use crate::quote::shell_quoted;
use crate::plan::{
    closing_phase, identity_prefix, install_flake_outcome, install_phase, kexec_phase,
    plan_commands, plan_outcome, staging_phase, strategy_summary,
};
use crate::render::script_text;
use crate::staging::known_hosts_commands;
use crate::text::{find, lemma_find};

verus! {

/// Options that a deployment plan accepts are consistent: a static and a
/// generated host key exclude each other, a public host key needs the
/// private one, a prebuilt system excludes a flake source and an identity
/// hook, an identity hook needs a host identity, a rollback hook needs an
/// identity hook, the target names a user, and the work paths are absolute.
pub proof fn law_accepted_options_are_consistent(c: SshCommand, f: LocalFacts)
    requires
        plan_outcome(c, f) is Ok,
    ensures
        !(c.host_key is Some && c.generate_host_key),
        c.host_key_public is Some ==> c.host_key is Some,
        !(c.system is Some && c.flake_source is Some),
        !(c.system is Some && c.identity_hook is Some),
        c.identity_hook is Some ==> has_identity(c),
        c.identity_rollback_hook is Some ==> c.identity_hook is Some,
        c.target@.contains('@'),
        c.target_root@.len() > 0 && c.target_root@[0] == '/',
        c.remote_workdir@.len() > 0 && c.remote_workdir@[0] == '/',
        is_file(f.probes@, c.disk_spec@),
        is_file(f.probes@, c.kexec_kernel@),
        is_file(f.probes@, c.kexec_initrd@),
{
}

/// `run` and `installer build` refuse without `--execute`, whatever else is
/// given, and with it they run exactly what `script` and `installer plan`
/// show, or refuse as those do.
pub proof fn law_nothing_runs_without_consent(
    r: SshRunCommand,
    f: LocalFacts,
    b: InstallerRunCommand,
    g: InstallerFacts,
)
    ensures
        !r.execute ==> run_outcome(r, f) == Err::<Seq<char>, Seq<char>>(RUN_REFUSAL@),
        r.execute ==> run_outcome(r, f) == (match plan_outcome(r.ssh, f) {
            Ok(p) => Ok::<Seq<char>, Seq<char>>(script_text(p)),
            Err(m) => Err(m),
        }),
        !b.execute ==> build_outcome(b, g) == Err::<InstallerPlanModel, Seq<char>>(BUILD_REFUSAL@),
        b.execute ==> build_outcome(b, g) == installer_outcome(b.build, g),
{
}

// ---------------------------------------------------------------------------
// The order of the workflow
// ---------------------------------------------------------------------------

/// The stage of the workflow that a phase belongs to: the preflight check,
/// the kexec staging, the kexec, the wait for SSH, the staging inside the
/// installer, `disk-nix apply`, the install handoff (mount, host identity,
/// closure copy, `nixos-install`), and the final reboot.
pub open spec fn stage_rank(p: Phase) -> int {
    match p {
        Phase::Preflight => 0,
        Phase::StageKexec => 1,
        Phase::Kexec => 2,
        Phase::AwaitInstaller => 3,
        Phase::StageInstall => 4,
        Phase::DiskNixApply => 5,
        Phase::StageHostIdentity => 6,
        Phase::CopySystem => 6,
        Phase::NixosInstall => 6,
        Phase::Reboot => 7,
    }
}

/// Commands whose stages never go back.
pub open spec fn in_stage_order(s: Seq<CommandModel>) -> bool {
    forall|i: int, j: int|
        0 <= i <= j < s.len() ==> stage_rank(#[trigger] s[i].phase) <= stage_rank(
            #[trigger] s[j].phase,
        )
}

/// Commands whose stages lie between `lo` and `hi`.
pub open spec fn stages_within(s: Seq<CommandModel>, lo: int, hi: int) -> bool {
    forall|i: int|
        0 <= i < s.len() ==> lo <= stage_rank(#[trigger] s[i].phase) && stage_rank(s[i].phase)
            <= hi
}

/// A step run on the operator's machine for the host identity: neither
/// `ssh` nor `scp`.
pub open spec fn is_local_identity_step(m: CommandModel) -> bool {
    &&& m.phase == Phase::StageHostIdentity
    &&& m.argv.len() > 0
    &&& m.argv[0] != "ssh"@
    &&& m.argv[0] != "scp"@
}

proof fn lemma_concat_in_order(a: Seq<CommandModel>, b: Seq<CommandModel>, lo: int, mid: int, hi: int)
    requires
        in_stage_order(a),
        in_stage_order(b),
        stages_within(a, lo, mid),
        stages_within(b, mid, hi),
        lo <= mid <= hi,
    ensures
        in_stage_order(a + b),
        stages_within(a + b, lo, hi),
{
    let s = a + b;
    assert forall|i: int, j: int| 0 <= i <= j < s.len() implies stage_rank(
        #[trigger] s[i].phase,
    ) <= stage_rank(#[trigger] s[j].phase) by {
        if j < a.len() {
            assert(s[i] == a[i] && s[j] == a[j]);
        } else if i >= a.len() {
            assert(s[i] == b[i - a.len()] && s[j] == b[j - a.len()]);
        } else {
            assert(s[i] == a[i] && s[j] == b[j - a.len()]);
            assert(stage_rank(a[i].phase) <= mid);
            assert(mid <= stage_rank(b[j - a.len()].phase));
        }
    }
    assert forall|i: int| 0 <= i < s.len() implies lo <= stage_rank(#[trigger] s[i].phase) && stage_rank(s[i].phase) <= hi by {
        if i < a.len() {
            assert(s[i] == a[i]);
            assert(lo <= stage_rank(a[i].phase) <= mid);
        } else {
            assert(s[i] == b[i - a.len()]);
            assert(mid <= stage_rank(b[i - a.len()].phase) <= hi);
        }
    }
}

proof fn lemma_one_stage(s: Seq<CommandModel>, r: int)
    requires
        stages_within(s, r, r),
    ensures
        in_stage_order(s),
{
    assert forall|i: int, j: int| 0 <= i <= j < s.len() implies stage_rank(
        #[trigger] s[i].phase,
    ) <= stage_rank(#[trigger] s[j].phase) by {
        assert(stage_rank(s[i].phase) == r);
        assert(stage_rank(s[j].phase) == r);
    }
}

proof fn lemma_kexec_phase_order(c: SshCommand, append: Seq<char>)
    ensures
        in_stage_order(kexec_phase(c, append)),
        stages_within(kexec_phase(c, append), 0, 4),
        kexec_phase(c, append)[0].phase == Phase::Preflight,
{
    let s = kexec_phase(c, append);
    assert(stage_rank(s[0].phase) == 0);
    assert(stage_rank(s[1].phase) == 1);
    assert(stage_rank(s[2].phase) == 2);
    assert(stage_rank(s[3].phase) == 3);
    assert(stage_rank(s[4].phase) == 4);
    assert forall|i: int| 0 <= i < s.len() implies stage_rank(#[trigger] s[i].phase) == i by {}
}

#[verifier::rlimit(100)]
#[verifier::spinoff_prover]
proof fn lemma_staging_phase_order(c: SshCommand)
    ensures
        in_stage_order(staging_phase(c)),
        stages_within(staging_phase(c), 4, 5),
        staging_phase(c).len() >= 2,
        staging_phase(c).last().phase == Phase::DiskNixApply,
        forall|i: int|
            0 <= i < staging_phase(c).len() - 1 ==> #[trigger] staging_phase(c)[i].phase
                == Phase::StageInstall,
{
    let kh = known_hosts_commands(c);
    assert forall|i: int| 0 <= i < kh.len() implies #[trigger] stage_rank(kh[i].phase) == 4 by {}
    lemma_one_stage(kh, 4);
    let tail = seq![crate::plan::upload_spec_model(c), crate::plan::disk_apply_model(c)];
    assert(stage_rank(tail[0].phase) == 4);
    assert(stage_rank(tail[1].phase) == 5);
    assert(in_stage_order(tail));
    let head: Seq<CommandModel> = match c.flake_source {
        Some(src) => seq![
            crate::commands::command_model(
                Phase::StageInstall,
                "upload local flake source into the installer"@,
                false,
                crate::commands::sh_argv(
                    crate::staging::stage_flake_script(c, src@, crate::plan::remote_flake_dir(c)),
                ),
            ),
        ],
        None => Seq::empty(),
    };
    assert(stages_within(head, 4, 4));
    lemma_one_stage(head, 4);
    lemma_concat_in_order(head, kh, 4, 4, 4);
    lemma_concat_in_order(head + kh, tail, 4, 4, 5);
    let st = head + kh + tail;
    assert(staging_phase(c) == st);
    assert forall|i: int| 0 <= i < st.len() - 1 implies #[trigger] st[i].phase == Phase::StageInstall by {
        if i < head.len() {
            assert(st[i] == head[i]);
        } else if i < head.len() + kh.len() {
            assert(st[i] == kh[i - head.len()]);
            assert(stage_rank(kh[i - head.len()].phase) == 4);
        } else {
            assert(st[i] == tail[0]);
        }
    }
}

proof fn lemma_host_identity_stage(c: SshCommand, public_key: Option<Seq<char>>)
    ensures
        forall|i: int|
            0 <= i < host_identity_models(c, public_key).len() ==> (#[trigger] host_identity_models(
                c,
                public_key,
            )[i]).phase == Phase::StageHostIdentity,
{
    let h = host_identity_models(c, public_key);
    let u = host_key_uploads(c, public_key);
    assert forall|i: int| 0 <= i < u.len() implies #[trigger] u[i].phase == Phase::StageHostIdentity by {}
    assert forall|i: int| 0 <= i < h.len() implies (#[trigger] h[i]).phase == Phase::StageHostIdentity by {
        if i < u.len() {
            assert(h[i] == u[i]);
        }
    }
}

#[verifier::rlimit(100)]
#[verifier::spinoff_prover]
proof fn lemma_install_phase_stage(c: SshCommand, public_key: Option<Seq<char>>, flake: Seq<char>)
    ensures
        in_stage_order(install_phase(c, public_key, flake)),
        stages_within(install_phase(c, public_key, flake), 6, 6),
{
    let h = host_identity_models(c, public_key);
    lemma_host_identity_stage(c, public_key);
    let s = install_phase(c, public_key, flake);
    if c.system is Some || has_identity(c) {
        let m = crate::plan::mount_model(c);
        let last: Seq<CommandModel> = s.skip(1 + h.len() as int);
        assert(s == seq![m] + h + last);
        assert forall|i: int| 0 <= i < last.len() implies #[trigger] stage_rank(last[i].phase) == 6 by {}
        assert forall|i: int| 0 <= i < s.len() implies 6 <= stage_rank(#[trigger] s[i].phase) && stage_rank(s[i].phase) <= 6 by {
            if 1 <= i < 1 + h.len() {
                assert(s[i] == h[i - 1]);
            } else if i >= 1 + h.len() {
                assert(s[i] == last[i - 1 - h.len()]);
            }
        }
    }
    lemma_one_stage(s, 6);
}

proof fn lemma_closing_phase_order(c: SshCommand)
    ensures
        in_stage_order(closing_phase(c)),
        stages_within(closing_phase(c), 6, 7),
        !c.no_final_reboot ==> closing_phase(c).last().phase == Phase::Reboot,
        forall|i: int|
            0 <= i < closing_phase(c).len() && #[trigger] closing_phase(c)[i].phase
                == Phase::Reboot ==> i == closing_phase(c).len() - 1 && !c.no_final_reboot,
{
    let a: Seq<CommandModel> = if c.identity_rollback_hook is Some {
        seq![disarm_model()]
    } else {
        Seq::empty()
    };
    let b: Seq<CommandModel> = if !c.no_final_reboot {
        seq![crate::plan::reboot_model(c)]
    } else {
        Seq::empty()
    };
    assert(stages_within(a, 6, 6));
    assert(stages_within(b, 7, 7));
    lemma_one_stage(a, 6);
    lemma_one_stage(b, 7);
    lemma_concat_in_order(a, b, 6, 6, 7);
    assert(closing_phase(c) == a + b);
}

proof fn lemma_identity_prefix_local(
    c: SshCommand,
    identity_host: Option<Seq<char>>,
    public_key: Option<Seq<char>>,
)
    ensures
        forall|i: int|
            0 <= i < identity_prefix(c, identity_host, public_key).len()
                ==> is_local_identity_step(#[trigger] identity_prefix(c, identity_host, public_key)[i]),
{
    reveal_strlit("ssh");
    reveal_strlit("scp");
    reveal_strlit("sh");
    reveal_strlit("__nixos_kexec_raw_script");
    let s = identity_prefix(c, identity_host, public_key);
    assert(RAW_SCRIPT_SENTINEL@ != "ssh"@ && RAW_SCRIPT_SENTINEL@ != "scp"@) by {
        assert(RAW_SCRIPT_SENTINEL@.len() != 3);
    }
    assert("sh"@ != "ssh"@ && "sh"@ != "scp"@) by {
        assert("sh"@.len() == 2);
    }
    assert forall|i: int| 0 <= i < s.len() implies is_local_identity_step(#[trigger] s[i]) by {
        let a: Seq<CommandModel> = if c.generate_host_key {
            seq![generate_key_model(identity_host)]
        } else if c.identity_hook is Some {
            seq![identity_state_model()]
        } else {
            Seq::empty()
        };
        let b: Seq<CommandModel> = match c.identity_rollback_hook {
            Some(r) => seq![rollback_trap_model(c, r@, identity_host, public_key)],
            None => Seq::empty(),
        };
        let d: Seq<CommandModel> = match c.identity_hook {
            Some(h) => seq![identity_hook_model(c, h@, identity_host, public_key)],
            None => Seq::empty(),
        };
        assert(s == a + b + d);
        if i < a.len() {
            assert(s[i] == a[i]);
        } else if i < a.len() + b.len() {
            assert(s[i] == b[i - a.len()]);
        } else {
            assert(s[i] == d[i - a.len() - b.len()]);
        }
    }
}

/// The order facts of the commands of a plan, whatever the values derived
/// from the options.
pub open spec fn workflow_ordered(cmds: Seq<CommandModel>, no_final_reboot: bool) -> bool {
    &&& exists|n: int|
        0 <= n < cmds.len() && #[trigger] cmds[n].phase == Phase::Preflight && (forall|i: int|
            0 <= i < n ==> is_local_identity_step(#[trigger] cmds[i])) && in_stage_order(
            cmds.skip(n),
        )
    &&& !no_final_reboot <==> cmds.last().phase == Phase::Reboot
    &&& forall|i: int| 0 <= i < cmds.len() - 1 ==> #[trigger] cmds[i].phase != Phase::Reboot
}

#[verifier::rlimit(100)]
#[verifier::spinoff_prover]
proof fn lemma_plan_commands_ordered(
    c: SshCommand,
    public_key: Option<Seq<char>>,
    identity_host: Option<Seq<char>>,
    append: Seq<char>,
    flake: Seq<char>,
)
    ensures
        workflow_ordered(plan_commands(c, public_key, identity_host, append, flake), c.no_final_reboot),
{
    let cmds = plan_commands(c, public_key, identity_host, append, flake);
    let p = identity_prefix(c, identity_host, public_key);
    let k = kexec_phase(c, append);
    let st = staging_phase(c);
    let ins = install_phase(c, public_key, flake);
    let cl = closing_phase(c);
    lemma_identity_prefix_local(c, identity_host, public_key);
    lemma_kexec_phase_order(c, append);
    lemma_staging_phase_order(c);
    lemma_install_phase_stage(c, public_key, flake);
    lemma_closing_phase_order(c);
    lemma_concat_in_order(k, st, 0, 4, 5);
    lemma_concat_in_order(k + st, ins, 0, 5, 6);
    lemma_concat_in_order(k + st + ins, cl, 0, 6, 7);
    let rest = k + st + ins + cl;
    assert(cmds == p + rest);
    let n = p.len() as int;
    assert(cmds.skip(n) == rest);
    assert(cmds[n] == k[0]);
    assert forall|i: int| 0 <= i < n implies is_local_identity_step(#[trigger] cmds[i]) by {
        assert(cmds[i] == p[i]);
    }
    let front = p + k + st + ins;
    assert(cmds == front + cl);
    assert forall|i: int| 0 <= i < front.len() implies #[trigger] front[i].phase != Phase::Reboot by {
        if i < n {
            assert(front[i] == p[i]);
            assert(is_local_identity_step(p[i]));
        } else {
            assert(front[i] == rest[i - n]);
            assert(stage_rank(rest[i - n].phase) <= 6);
        }
    }
    if cl.len() > 0 {
        assert(cmds.last() == cl[cl.len() - 1]);
    } else {
        assert(cmds.last() == front[front.len() - 1]);
    }
    assert forall|i: int| 0 <= i < cmds.len() - 1 implies #[trigger] cmds[i].phase != Phase::Reboot by {
        if i < front.len() {
            assert(cmds[i] == front[i]);
        } else {
            assert(cmds[i] == cl[i - front.len()]);
        }
    }
}

proof fn lemma_plan_commands_of(c: SshCommand, f: LocalFacts)
    requires
        plan_outcome(c, f) is Ok,
    ensures
        (plan_outcome(c, f)->Ok_0).commands == plan_commands(
            c,
            host_key_public_outcome(c, f.probes@)->Ok_0,
            identity_host_outcome(c)->Ok_0,
            kexec_append_outcome(c, f.kexec_boot)->Ok_0,
            install_flake_outcome(c)->Ok_0,
        ),
{
}

/// The workflow runs in the order the documentation gives: first only
/// local identity steps, then the preflight check, and from there the
/// stages never go back (kexec staging, kexec, the wait for SSH, staging
/// inside the installer, `disk-nix apply`, the install handoff, the
/// reboot). The plan ends with the reboot exactly when no
/// `--no-final-reboot` is given, and nothing else reboots.
pub proof fn law_workflow_order(c: SshCommand, f: LocalFacts)
    requires
        plan_outcome(c, f) is Ok,
    ensures
        workflow_ordered((plan_outcome(c, f)->Ok_0).commands, c.no_final_reboot),
{
    lemma_plan_commands_of(c, f);
    lemma_plan_commands_ordered(
        c,
        host_key_public_outcome(c, f.probes@)->Ok_0,
        identity_host_outcome(c)->Ok_0,
        kexec_append_outcome(c, f.kexec_boot)->Ok_0,
        install_flake_outcome(c)->Ok_0,
    );
}

// ---------------------------------------------------------------------------
// TTY allocation
// ---------------------------------------------------------------------------

/// A command run as `ssh ...` asks for a TTY (`-tt` right after `ssh`)
/// exactly when `--ssh-tty` is given and the command mutates the host.
pub open spec fn tty_rule(ssh_tty: bool, m: CommandModel) -> bool {
    m.argv.len() > 0 && m.argv[0] == "ssh"@ ==> m.argv.len() > 1 && (m.argv[1] == "-tt"@ <==> (
    ssh_tty && m.mutates))
}

pub open spec fn all_tty_rule(ssh_tty: bool, s: Seq<CommandModel>) -> bool {
    forall|i: int| 0 <= i < s.len() ==> tty_rule(ssh_tty, #[trigger] s[i])
}

/// No SSH option is the word `-tt`.
pub open spec fn no_tt_option(c: SshCommand) -> bool {
    forall|i: int| 0 <= i < c.ssh_options@.len() ==> #[trigger] c.ssh_options@[i]@ != "-tt"@
}

/// A command run as `ssh ...` has some argument `-tt` exactly when
/// `--ssh-tty` is given and the command mutates the host.
pub open spec fn tty_word_rule(ssh_tty: bool, m: CommandModel) -> bool {
    m.argv.len() > 0 && m.argv[0] == "ssh"@ ==> ((exists|k: int|
        0 <= k < m.argv.len() && #[trigger] m.argv[k] == "-tt"@) <==> (ssh_tty && m.mutates))
}

/// Both TTY rules of one command; the second where no option is `-tt`.
pub open spec fn tty_rules(c: SshCommand, m: CommandModel) -> bool {
    tty_rule(c.ssh_tty, m) && (no_tt_option(c) ==> tty_word_rule(c.ssh_tty, m))
}

pub open spec fn all_tty_rules(c: SshCommand, s: Seq<CommandModel>) -> bool {
    forall|i: int| 0 <= i < s.len() ==> tty_rules(c, #[trigger] s[i])
}

proof fn lemma_option_args_words(options: Seq<Seq<char>>)
    ensures
        forall|i: int|
            0 <= i < crate::quote::option_args(options).len() ==> #[trigger] crate::quote::option_args(
                options,
            )[i] == "-o"@ || exists|j: int|
                0 <= j < options.len() && crate::quote::option_args(options)[i] == options[j],
    decreases options.len(),
{
    if options.len() > 0 {
        let d = options.drop_last();
        lemma_option_args_words(d);
        let a = crate::quote::option_args(options);
        let ad = crate::quote::option_args(d);
        assert(a == ad + seq!["-o"@, options.last()]);
        assert forall|i: int| 0 <= i < a.len() implies #[trigger] a[i] == "-o"@ || exists|j: int|
            0 <= j < options.len() && a[i] == options[j] by {
            if i < ad.len() {
                assert(a[i] == ad[i]);
                if ad[i] != "-o"@ {
                    let j = choose|j: int| 0 <= j < d.len() && ad[i] == d[j];
                    assert(options[j] == d[j]);
                }
            } else if i == ad.len() + 1 {
                assert(a[i] == options[options.len() - 1]);
            }
        }
    }
}

proof fn lemma_option_args_first(options: Seq<Seq<char>>)
    ensures
        crate::quote::option_args(options).len() == 2 * options.len(),
        options.len() > 0 ==> crate::quote::option_args(options)[0] == "-o"@,
    decreases options.len(),
{
    if options.len() > 0 {
        lemma_option_args_first(options.drop_last());
    }
}

proof fn lemma_ssh_argv_tty(c: SshCommand, mutates: bool, script: Seq<char>)
    requires
        c.target@.contains('@'),
    ensures
        ({
            let a = crate::commands::ssh_argv(c, mutates, script);
            &&& a.len() > 1
            &&& a[0] == "ssh"@
            &&& (a[1] == "-tt"@ <==> (c.ssh_tty && mutates))
        }),
{
    reveal_strlit("-tt");
    reveal_strlit("-o");
    let o = crate::commands::opts(c);
    lemma_option_args_first(c.ssh_options.deep_view());
    let a = crate::commands::ssh_argv(c, mutates, script);
    if !(c.ssh_tty && mutates) {
        assert(a == seq!["ssh"@] + o + seq![c.target@, script]);
        if o.len() > 0 {
            assert(a[1] == o[0]);
            assert("-o"@.len() != "-tt"@.len());
        } else {
            assert(a[1] == c.target@);
            let k = choose|k: int| 0 <= k < c.target@.len() && c.target@[k] == '@';
            if c.target@ == "-tt"@ {
                assert(c.target@[k] != '@');
            }
        }
    }
}

proof fn lemma_not_ssh_words()
    ensures
        "sh"@ != "ssh"@,
        "scp"@ != "ssh"@,
        RAW_SCRIPT_SENTINEL@ != "ssh"@,
{
    reveal_strlit("ssh");
    reveal_strlit("scp");
    reveal_strlit("sh");
    reveal_strlit("__nixos_kexec_raw_script");
    assert("sh"@.len() != "ssh"@.len());
    assert("scp"@[1] != "ssh"@[1]);
    assert(RAW_SCRIPT_SENTINEL@.len() != "ssh"@.len());
}

proof fn lemma_concat_tty(c: SshCommand, a: Seq<CommandModel>, b: Seq<CommandModel>)
    requires
        all_tty_rules(c, a),
        all_tty_rules(c, b),
    ensures
        all_tty_rules(c, a + b),
{
    assert forall|i: int| 0 <= i < (a + b).len() implies tty_rules(c, #[trigger] (a + b)[i]) by {
        if i < a.len() {
            assert((a + b)[i] == a[i]);
        } else {
            assert((a + b)[i] == b[i - a.len()]);
        }
    }
}

#[verifier::rlimit(100)]
#[verifier::spinoff_prover]
proof fn lemma_kexec_phase_tty(c: SshCommand, append: Seq<char>)
    requires
        c.target@.contains('@'),
    ensures
        all_tty_rules(c, kexec_phase(c, append)),
{
    lemma_not_ssh_words();
    lemma_ssh_script_heads();
    let s = kexec_phase(c, append);
    assert(s[0].argv == crate::commands::ssh_argv(c, false, s[0].argv.last()));
    assert(s[4].argv == crate::commands::ssh_argv(c, false, s[4].argv.last()));
    lemma_ssh_model_tty(c, s[0], s[0].argv.last());
    lemma_ssh_model_tty(c, s[4], s[4].argv.last());
    lemma_local_model_tty(c, s[1]);
    lemma_local_model_tty(c, s[2]);
    lemma_local_model_tty(c, s[3]);
    assert forall|i: int| 0 <= i < s.len() implies tty_rules(c, #[trigger] s[i]) by {}
}

proof fn lemma_ssh_script_heads()
    ensures
        "set -euo pipefail; test \"$(id -u)\" = 0; command -v kexec >/dev/null; command -v sshd >/dev/null || command -v systemctl >/dev/null; mkdir -p "@.len()
            > 3,
        "set -euo pipefail; command -v tar >/dev/null; mkdir -p "@.len() > 3,
        "set -euo pipefail; install -d -m 0700 /root/.ssh; install -d -m 0755 /etc/ssh; cat "@.len()
            > 3,
        "set -euo pipefail; "@.len() > 3,
        "set -euo pipefail; install -d -m 0755 "@.len() > 3,
        "set -euo pipefail; nixos-install --root "@.len() > 3,
        "set -euo pipefail; sync; reboot"@.len() > 3,
{
    reveal_strlit(
        "set -euo pipefail; test \"$(id -u)\" = 0; command -v kexec >/dev/null; command -v sshd >/dev/null || command -v systemctl >/dev/null; mkdir -p ",
    );
    reveal_strlit("set -euo pipefail; command -v tar >/dev/null; mkdir -p ");
    reveal_strlit(
        "set -euo pipefail; install -d -m 0700 /root/.ssh; install -d -m 0755 /etc/ssh; cat ",
    );
    reveal_strlit("set -euo pipefail; ");
    reveal_strlit("set -euo pipefail; install -d -m 0755 ");
    reveal_strlit("set -euo pipefail; nixos-install --root ");
    reveal_strlit("set -euo pipefail; sync; reboot");
}

proof fn lemma_ssh_model_tty(c: SshCommand, m: CommandModel, script: Seq<char>)
    requires
        c.target@.contains('@'),
        m.argv == crate::commands::ssh_argv(c, m.mutates, script),
        script.len() > 3,
    ensures
        tty_rules(c, m),
{
    lemma_ssh_argv_tty(c, m.mutates, script);
    if no_tt_option(c) {
        reveal_strlit("-tt");
        reveal_strlit("-o");
        reveal_strlit("ssh");
        let o = crate::commands::opts(c);
        let options = c.ssh_options.deep_view();
        lemma_option_args_words(options);
        let a = m.argv;
        let tt: Seq<Seq<char>> = if c.ssh_tty && m.mutates {
            seq!["-tt"@]
        } else {
            Seq::empty()
        };
        assert(a == seq!["ssh"@] + tt + o + seq![c.target@, script]);
        if c.ssh_tty && m.mutates {
            assert(a[1] == "-tt"@);
        } else {
            assert forall|k: int| 0 <= k < a.len() implies #[trigger] a[k] != "-tt"@ by {
                if k == 0 {
                    assert(a[0] == "ssh"@);
                    assert("ssh"@[0] != "-tt"@[0]);
                } else if k <= o.len() {
                    assert(a[k] == o[k - 1]);
                    if o[k - 1] != "-o"@ {
                        let j = choose|j: int| 0 <= j < options.len() && o[k - 1] == options[j];
                        assert(options[j] == c.ssh_options@[j]@);
                    } else {
                        assert("-o"@.len() != "-tt"@.len());
                    }
                } else if k == o.len() + 1 {
                    assert(a[k] == c.target@);
                    if c.target@ == "-tt"@ {
                        let q = choose|q: int| 0 <= q < c.target@.len() && c.target@[q] == '@';
                        assert(c.target@[q] != '@');
                    }
                } else {
                    assert(a[k] == script);
                    assert(script.len() != "-tt"@.len());
                }
            }
        }
    }
}

proof fn lemma_local_model_tty(c: SshCommand, m: CommandModel)
    requires
        m.argv.len() > 0,
        m.argv[0] == "sh"@ || m.argv[0] == "scp"@ || m.argv[0] == RAW_SCRIPT_SENTINEL@,
    ensures
        tty_rules(c, m),
{
    lemma_not_ssh_words();
}

#[verifier::rlimit(100)]
#[verifier::spinoff_prover]
proof fn lemma_staging_phase_tty(c: SshCommand)
    requires
        c.target@.contains('@'),
    ensures
        all_tty_rules(c, staging_phase(c)),
{
    lemma_ssh_script_heads();
    let s = staging_phase(c);
    let kh = known_hosts_commands(c);
    let n = c.installer_known_hosts_files@.len();
    assert forall|i: int| 0 <= i < kh.len() implies tty_rules(c, #[trigger] kh[i]) by {
        if i < n {
            assert(kh[i] == crate::staging::known_hosts_upload(c, i));
            lemma_local_model_tty(c, kh[i]);
        } else {
            lemma_ssh_model_tty(c, kh[i], kh[i].argv.last());
        }
    }
    let head: Seq<CommandModel> = match c.flake_source {
        Some(src) => seq![
            crate::commands::command_model(
                Phase::StageInstall,
                "upload local flake source into the installer"@,
                false,
                crate::commands::sh_argv(
                    crate::staging::stage_flake_script(c, src@, crate::plan::remote_flake_dir(c)),
                ),
            ),
        ],
        None => Seq::empty(),
    };
    assert forall|i: int| 0 <= i < head.len() implies tty_rules(c, #[trigger] head[i]) by {
        lemma_local_model_tty(c, head[i]);
    }
    let tail = seq![crate::plan::upload_spec_model(c), crate::plan::disk_apply_model(c)];
    lemma_local_model_tty(c, tail[0]);
    lemma_ssh_model_tty(c, tail[1], tail[1].argv.last());
    assert forall|i: int| 0 <= i < tail.len() implies tty_rules(c, #[trigger] tail[i]) by {}
    lemma_concat_tty(c, head, kh);
    lemma_concat_tty(c, head + kh, tail);
    assert(s == head + kh + tail);
}

#[verifier::rlimit(100)]
#[verifier::spinoff_prover]
proof fn lemma_host_identity_tty(c: SshCommand, public_key: Option<Seq<char>>)
    requires
        c.target@.contains('@'),
    ensures
        all_tty_rules(c, host_identity_models(c, public_key)),
{
    lemma_ssh_script_heads();
    let h = host_identity_models(c, public_key);
    let u = host_key_uploads(c, public_key);
    assert forall|i: int| 0 <= i < u.len() implies tty_rules(c, #[trigger] u[i]) by {
        lemma_local_model_tty(c, u[i]);
    }
    assert forall|i: int| 0 <= i < h.len() implies tty_rules(c, #[trigger] h[i]) by {
        if i < u.len() {
            assert(h[i] == u[i]);
        } else {
            lemma_ssh_model_tty(c, h[i], h[i].argv.last());
        }
    }
}

#[verifier::rlimit(100)]
#[verifier::spinoff_prover]
proof fn lemma_install_phase_tty(c: SshCommand, public_key: Option<Seq<char>>, flake: Seq<char>)
    requires
        c.target@.contains('@'),
    ensures
        all_tty_rules(c, install_phase(c, public_key, flake)),
{
    lemma_ssh_script_heads();
    let h = host_identity_models(c, public_key);
    lemma_host_identity_tty(c, public_key);
    let s = install_phase(c, public_key, flake);
    if c.system is Some || has_identity(c) {
        let m = crate::plan::mount_model(c);
        lemma_ssh_model_tty(c, m, m.argv.last());
        let last: Seq<CommandModel> = s.skip(1 + h.len() as int);
        assert(s == seq![m] + h + last);
        assert forall|i: int| 0 <= i < last.len() implies tty_rules(c, #[trigger] last[i]) by {
            if c.system is Some && i == 0 {
                lemma_local_model_tty(c, last[i]);
            } else {
                lemma_ssh_model_tty(c, last[i], last[i].argv.last());
            }
        }
        assert(all_tty_rules(c, seq![m]));
        lemma_concat_tty(c, seq![m], h);
        lemma_concat_tty(c, seq![m] + h, last);
    } else {
        lemma_ssh_model_tty(c, s[0], s[0].argv.last());
    }
}

proof fn lemma_prefix_and_closing_tty(
    c: SshCommand,
    identity_host: Option<Seq<char>>,
    public_key: Option<Seq<char>>,
)
    requires
        c.target@.contains('@'),
    ensures
        all_tty_rules(c, identity_prefix(c, identity_host, public_key)),
        all_tty_rules(c, closing_phase(c)),
{
    lemma_ssh_script_heads();
    lemma_identity_prefix_local(c, identity_host, public_key);
    let p = identity_prefix(c, identity_host, public_key);
    assert forall|i: int| 0 <= i < p.len() implies tty_rules(c, #[trigger] p[i]) by {
        assert(is_local_identity_step(p[i]));
    }
    let cl = closing_phase(c);
    lemma_not_ssh_words();
    assert forall|i: int| 0 <= i < cl.len() implies tty_rules(c, #[trigger] cl[i]) by {
        if cl[i] == disarm_model() {
        } else {
            assert(cl[i] == crate::plan::reboot_model(c));
            lemma_ssh_model_tty(c, cl[i], cl[i].argv.last());
        }
    }
}

proof fn lemma_plan_tty_rules(c: SshCommand, f: LocalFacts)
    requires
        plan_outcome(c, f) is Ok,
    ensures
        all_tty_rules(c, (plan_outcome(c, f)->Ok_0).commands),
{
    law_accepted_options_are_consistent(c, f);
    lemma_plan_commands_of(c, f);
    let public_key = host_key_public_outcome(c, f.probes@)->Ok_0;
    let identity_host = identity_host_outcome(c)->Ok_0;
    let append = kexec_append_outcome(c, f.kexec_boot)->Ok_0;
    let flake = install_flake_outcome(c)->Ok_0;
    lemma_prefix_and_closing_tty(c, identity_host, public_key);
    lemma_kexec_phase_tty(c, append);
    lemma_staging_phase_tty(c);
    lemma_install_phase_tty(c, public_key, flake);
    let p = identity_prefix(c, identity_host, public_key);
    let k = kexec_phase(c, append);
    let st = staging_phase(c);
    let ins = install_phase(c, public_key, flake);
    let cl = closing_phase(c);
    lemma_concat_tty(c, p, k);
    lemma_concat_tty(c, p + k, st);
    lemma_concat_tty(c, p + k + st, ins);
    lemma_concat_tty(c, p + k + st + ins, cl);
}

/// `--ssh-tty` gives a TTY to the mutating SSH commands and to no other:
/// every command of a plan that is run as `ssh` passes `-tt` right after
/// `ssh` exactly when `--ssh-tty` is given and the command mutates the host.
pub proof fn law_tty_only_for_mutating_ssh(c: SshCommand, f: LocalFacts)
    requires
        plan_outcome(c, f) is Ok,
    ensures
        all_tty_rule(c.ssh_tty, (plan_outcome(c, f)->Ok_0).commands),
{
    lemma_plan_tty_rules(c, f);
    let cmds = (plan_outcome(c, f)->Ok_0).commands;
    assert forall|i: int| 0 <= i < cmds.len() implies tty_rule(c.ssh_tty, #[trigger] cmds[i]) by {
        assert(tty_rules(c, cmds[i]));
    }
}

/// When no SSH option is the word `-tt`, a command of a plan run as `ssh`
/// has an argument `-tt` exactly when `--ssh-tty` is given and the command
/// mutates the host; the plan records `--ssh-tty` as given.
pub proof fn law_tty_words_only_for_mutating_ssh(c: SshCommand, f: LocalFacts)
    requires
        plan_outcome(c, f) is Ok,
        no_tt_option(c),
    ensures
        (plan_outcome(c, f)->Ok_0).ssh_tty == c.ssh_tty,
        forall|i: int|
            0 <= i < (plan_outcome(c, f)->Ok_0).commands.len() ==> tty_word_rule(
                c.ssh_tty,
                #[trigger] (plan_outcome(c, f)->Ok_0).commands[i],
            ),
{
    lemma_plan_tty_rules(c, f);
    let cmds = (plan_outcome(c, f)->Ok_0).commands;
    assert forall|i: int| 0 <= i < cmds.len() implies tty_word_rule(c.ssh_tty, #[trigger] cmds[i]) by {
        assert(tty_rules(c, cmds[i]));
    }
}

// ---------------------------------------------------------------------------
// The install handoff
// ---------------------------------------------------------------------------

/// The step that installs the host identity into the mounted target: a
/// host identity step run as `ssh`.
pub open spec fn is_target_identity_step(m: CommandModel) -> bool {
    m.phase == Phase::StageHostIdentity && m.argv.len() > 0 && m.argv[0] == "ssh"@
}

/// A step that must come after `disk-nix` has mounted the target and before
/// `nixos-install` runs: the closure copy or the host identity installation.
pub open spec fn needs_mounted_target(m: CommandModel) -> bool {
    m.phase == Phase::CopySystem || is_target_identity_step(m)
}

/// A closure copy happens exactly when `has_system`.
#[verifier::opaque]
pub open spec fn copies_closure_iff(cmds: Seq<CommandModel>, has_system: bool) -> bool {
    (exists|k: int| 0 <= k < cmds.len() && #[trigger] cmds[k].phase == Phase::CopySystem)
        <==> has_system
}

/// The host identity is installed into the target exactly when `has_host_identity`.
#[verifier::opaque]
pub open spec fn installs_identity_iff(cmds: Seq<CommandModel>, has_host_identity: bool) -> bool {
    (exists|k: int| 0 <= k < cmds.len() && is_target_identity_step(#[trigger] cmds[k]))
        <==> has_host_identity
}

/// Every step that needs the mounted target lies between two
/// `disk-nix`/`nixos-install` steps: the mount before it, `nixos-install`
/// after it.
#[verifier::opaque]
pub open spec fn between_mount_and_install(cmds: Seq<CommandModel>) -> bool {
    forall|k: int|
        0 <= k < cmds.len() && needs_mounted_target(#[trigger] cmds[k]) ==> exists|i: int, j: int|
            0 <= i < k < j < cmds.len() && #[trigger] cmds[i].phase == Phase::NixosInstall
                && #[trigger] cmds[j].phase == Phase::NixosInstall
}

/// The facts of the install handoff over the commands of a plan.
#[verifier::opaque]
pub open spec fn handoff_ordered(cmds: Seq<CommandModel>, has_system: bool, has_host_identity: bool) -> bool {
    &&& copies_closure_iff(cmds, has_system)
    &&& installs_identity_iff(cmds, has_host_identity)
    &&& between_mount_and_install(cmds)
}

#[verifier::rlimit(100)]
#[verifier::spinoff_prover]
proof fn lemma_install_phase_handoff(c: SshCommand, public_key: Option<Seq<char>>, flake: Seq<char>)
    ensures
        ({
            let s = install_phase(c, public_key, flake);
            &&& s.len() >= 1
            &&& s[0].phase == Phase::NixosInstall
            &&& s.last().phase == Phase::NixosInstall
            &&& forall|k: int| 0 <= k < s.len() && #[trigger] s[k].phase == Phase::CopySystem ==> c.system is Some
            &&& c.system is Some ==> s[s.len() - 2].phase == Phase::CopySystem
            &&& forall|k: int| 0 <= k < s.len() && is_target_identity_step(#[trigger] s[k]) ==> has_identity(c)
            &&& has_identity(c) ==> is_target_identity_step(
                s[host_identity_models(c, public_key).len() as int],
            )
        }),
{
    lemma_not_ssh_words();
    let h = host_identity_models(c, public_key);
    let u = host_key_uploads(c, public_key);
    lemma_host_identity_stage(c, public_key);
    assert forall|i: int| 0 <= i < u.len() implies (#[trigger] u[i]).argv[0] == "sh"@ by {}
    let s = install_phase(c, public_key, flake);
    if c.system is Some || has_identity(c) {
        let m = crate::plan::mount_model(c);
        let last: Seq<CommandModel> = s.skip(1 + h.len() as int);
        assert(s == seq![m] + h + last);
        assert forall|k: int| 0 <= k < s.len() && #[trigger] s[k].phase == Phase::CopySystem implies c.system is Some by {
            if 1 <= k < 1 + h.len() {
                assert(s[k] == h[k - 1]);
            }
        }
        assert forall|k: int| 0 <= k < s.len() && is_target_identity_step(#[trigger] s[k]) implies has_identity(c) by {
            if 1 <= k < 1 + h.len() {
                assert(s[k] == h[k - 1]);
            } else if k >= 1 + h.len() {
                assert(s[k] == last[k - 1 - h.len()]);
            }
        }
        if has_identity(c) {
            lemma_ssh_argv_tty_free(c, true, h.last().argv.last());
            assert(s[h.len() as int] == h[h.len() - 1]);
            assert(h.last().argv == crate::commands::ssh_argv(c, true, h.last().argv.last()));
        }
    } else {
        assert(s.len() == 1);
    }
}

proof fn lemma_ssh_argv_tty_free(c: SshCommand, mutates: bool, script: Seq<char>)
    ensures
        crate::commands::ssh_argv(c, mutates, script).len() > 0,
        crate::commands::ssh_argv(c, mutates, script)[0] == "ssh"@,
{
}

proof fn lemma_outside_handoff(
    c: SshCommand,
    public_key: Option<Seq<char>>,
    identity_host: Option<Seq<char>>,
    append: Seq<char>,
)
    ensures
        ({
            let outside = identity_prefix(c, identity_host, public_key) + kexec_phase(c, append)
                + staging_phase(c);
            forall|k: int| 0 <= k < outside.len() ==> !needs_mounted_target(#[trigger] outside[k])
        }),
        forall|k: int|
            0 <= k < closing_phase(c).len() ==> !needs_mounted_target(#[trigger] closing_phase(c)[k]),
{
    lemma_not_ssh_words();
    let p = identity_prefix(c, identity_host, public_key);
    let k = kexec_phase(c, append);
    let st = staging_phase(c);
    lemma_identity_prefix_local(c, identity_host, public_key);
    lemma_kexec_phase_order(c, append);
    lemma_staging_phase_order(c);
    lemma_concat_in_order(k, st, 0, 4, 5);
    let outside = p + (k + st);
    assert forall|i: int| 0 <= i < outside.len() implies !needs_mounted_target(#[trigger] outside[i]) by {
        if i < p.len() {
            assert(outside[i] == p[i]);
            assert(is_local_identity_step(p[i]));
        } else {
            assert(outside[i] == (k + st)[i - p.len()]);
            assert(stage_rank((k + st)[i - p.len()].phase) <= 5);
        }
    }
    assert(p + k + st == outside);
    let cl = closing_phase(c);
    assert forall|i: int| 0 <= i < cl.len() implies !needs_mounted_target(#[trigger] cl[i]) by {
        if cl[i] == disarm_model() {
        } else {
            assert(cl[i] == crate::plan::reboot_model(c));
        }
    }
}

/// Where the steps that need the mounted target can stand in a plan.
#[verifier::opaque]
pub open spec fn handoff_parts(
    outside: Seq<CommandModel>,
    ins: Seq<CommandModel>,
    cl: Seq<CommandModel>,
    has_system: bool,
    has_host_identity: bool,
    idx: int,
) -> bool {
    &&& forall|k: int| 0 <= k < outside.len() ==> !needs_mounted_target(#[trigger] outside[k])
    &&& forall|k: int| 0 <= k < cl.len() ==> !needs_mounted_target(#[trigger] cl[k])
    &&& ins.len() >= 1
    &&& ins[0].phase == Phase::NixosInstall
    &&& ins.last().phase == Phase::NixosInstall
    &&& forall|k: int| 0 <= k < ins.len() && #[trigger] ins[k].phase == Phase::CopySystem ==> has_system
    &&& has_system ==> ins.len() >= 2 && ins[ins.len() - 2].phase == Phase::CopySystem
    &&& forall|k: int| 0 <= k < ins.len() && is_target_identity_step(#[trigger] ins[k]) ==> has_host_identity
    &&& has_host_identity ==> 0 <= idx < ins.len() && is_target_identity_step(ins[idx])
}

proof fn lemma_needs_mount_inside(
    outside: Seq<CommandModel>,
    ins: Seq<CommandModel>,
    cl: Seq<CommandModel>,
    has_system: bool,
    has_host_identity: bool,
    idx: int,
    k: int,
)
    requires
        handoff_parts(outside, ins, cl, has_system, has_host_identity, idx),
        0 <= k < (outside + ins + cl).len(),
        needs_mounted_target((outside + ins + cl)[k]),
    ensures
        outside.len() < k < outside.len() + ins.len() - 1,
        (outside + ins + cl)[k] == ins[k - outside.len()],
{
    reveal(handoff_parts);
    let cmds = outside + ins + cl;
    let a = outside.len() as int;
    let b = a + ins.len();
    if k < a {
        assert(cmds[k] == outside[k]);
    } else if k >= b {
        assert(cmds[k] == cl[k - b]);
    } else {
        assert(cmds[k] == ins[k - a]);
    }
}

proof fn lemma_handoff_between(
    outside: Seq<CommandModel>,
    ins: Seq<CommandModel>,
    cl: Seq<CommandModel>,
    has_system: bool,
    has_host_identity: bool,
    idx: int,
)
    requires
        handoff_parts(outside, ins, cl, has_system, has_host_identity, idx),
    ensures
        between_mount_and_install(outside + ins + cl),
{
    reveal(between_mount_and_install);
    reveal(handoff_parts);
    let cmds = outside + ins + cl;
    let a = outside.len() as int;
    let b = a + ins.len();
    assert(cmds[a] == ins[0]);
    assert(cmds[b - 1] == ins[ins.len() - 1]);
    assert forall|k: int| 0 <= k < cmds.len() && needs_mounted_target(#[trigger] cmds[k]) implies exists|i: int, j: int|
        0 <= i < k < j < cmds.len() && #[trigger] cmds[i].phase == Phase::NixosInstall
            && #[trigger] cmds[j].phase == Phase::NixosInstall by {
        lemma_needs_mount_inside(outside, ins, cl, has_system, has_host_identity, idx, k);
        assert(cmds[a].phase == Phase::NixosInstall && cmds[b - 1].phase == Phase::NixosInstall);
    }
}

proof fn lemma_handoff_copies(
    outside: Seq<CommandModel>,
    ins: Seq<CommandModel>,
    cl: Seq<CommandModel>,
    has_system: bool,
    has_host_identity: bool,
    idx: int,
)
    requires
        handoff_parts(outside, ins, cl, has_system, has_host_identity, idx),
    ensures
        copies_closure_iff(outside + ins + cl, has_system),
{
    reveal(copies_closure_iff);
    let cmds = outside + ins + cl;
    let a = outside.len() as int;
    let b = a + ins.len();
    assert forall|k: int| 0 <= k < cmds.len() && #[trigger] cmds[k].phase == Phase::CopySystem implies has_system by {
        assert(needs_mounted_target(cmds[k]));
        lemma_needs_mount_inside(outside, ins, cl, has_system, has_host_identity, idx, k);
        reveal(handoff_parts);
        assert(ins[k - a].phase == Phase::CopySystem);
    }
    if has_system {
        reveal(handoff_parts);
        assert(cmds[b - 2] == ins[ins.len() - 2]);
        assert(cmds[b - 2].phase == Phase::CopySystem);
    }
}

proof fn lemma_handoff_identity(
    outside: Seq<CommandModel>,
    ins: Seq<CommandModel>,
    cl: Seq<CommandModel>,
    has_system: bool,
    has_host_identity: bool,
    idx: int,
)
    requires
        handoff_parts(outside, ins, cl, has_system, has_host_identity, idx),
    ensures
        installs_identity_iff(outside + ins + cl, has_host_identity),
{
    reveal(installs_identity_iff);
    let cmds = outside + ins + cl;
    let a = outside.len() as int;
    assert forall|k: int| 0 <= k < cmds.len() && is_target_identity_step(#[trigger] cmds[k]) implies has_host_identity by {
        assert(needs_mounted_target(cmds[k]));
        lemma_needs_mount_inside(outside, ins, cl, has_system, has_host_identity, idx, k);
        reveal(handoff_parts);
        assert(is_target_identity_step(ins[k - a]));
    }
    if has_host_identity {
        reveal(handoff_parts);
        assert(cmds[a + idx] == ins[idx]);
        assert(is_target_identity_step(cmds[a + idx]));
    }
}

proof fn lemma_handoff_from_parts(
    outside: Seq<CommandModel>,
    ins: Seq<CommandModel>,
    cl: Seq<CommandModel>,
    has_system: bool,
    has_host_identity: bool,
    idx: int,
)
    requires
        handoff_parts(outside, ins, cl, has_system, has_host_identity, idx),
    ensures
        handoff_ordered(outside + ins + cl, has_system, has_host_identity),
{
    lemma_handoff_between(outside, ins, cl, has_system, has_host_identity, idx);
    lemma_handoff_copies(outside, ins, cl, has_system, has_host_identity, idx);
    lemma_handoff_identity(outside, ins, cl, has_system, has_host_identity, idx);
    reveal(handoff_ordered);
}

#[verifier::rlimit(100)]
#[verifier::spinoff_prover]
proof fn lemma_plan_commands_handoff(
    c: SshCommand,
    public_key: Option<Seq<char>>,
    identity_host: Option<Seq<char>>,
    append: Seq<char>,
    flake: Seq<char>,
)
    ensures
        handoff_ordered(
            plan_commands(c, public_key, identity_host, append, flake),
            c.system is Some,
            has_identity(c),
        ),
{
    let outside = identity_prefix(c, identity_host, public_key) + kexec_phase(c, append)
        + staging_phase(c);
    let ins = install_phase(c, public_key, flake);
    let cl = closing_phase(c);
    lemma_outside_handoff(c, public_key, identity_host, append);
    lemma_install_phase_handoff(c, public_key, flake);
    let idx = host_identity_models(c, public_key).len() as int;
    assert(handoff_parts(outside, ins, cl, c.system is Some, has_identity(c), idx)) by {
        reveal(handoff_parts);
    }
    lemma_handoff_from_parts(outside, ins, cl, c.system is Some, has_identity(c), idx);
    assert(plan_commands(c, public_key, identity_host, append, flake) == outside + ins + cl);
}

/// The install handoff of the documentation: a closure copy happens exactly
/// when `--system` is given, the host identity is installed into the
/// target exactly when `--host-key` or `--generate-host-key` is given, and
/// each of these steps comes after a `disk-nix`/`nixos-install` step that
/// mounts the target and before the one that runs `nixos-install`.
pub proof fn law_install_handoff(c: SshCommand, f: LocalFacts)
    requires
        plan_outcome(c, f) is Ok,
    ensures
        handoff_ordered((plan_outcome(c, f)->Ok_0).commands, c.system is Some, has_identity(c)),
{
    lemma_plan_commands_of(c, f);
    lemma_plan_commands_handoff(
        c,
        host_key_public_outcome(c, f.probes@)->Ok_0,
        identity_host_outcome(c)->Ok_0,
        kexec_append_outcome(c, f.kexec_boot)->Ok_0,
        install_flake_outcome(c)->Ok_0,
    );
}

// ---------------------------------------------------------------------------
// The install strategy
// ---------------------------------------------------------------------------

/// The plan names where the system closure comes from: a prebuilt closure
/// with `--system`, else a staged local flake with `--flake-source`, else
/// the flake built or fetched by the installer; its summary is that
/// strategy's. With `--flake-source` the install step uses the staged
/// directory with the `#host` fragment that follows the first `#` of
/// `--flake`, which must not be empty; without it, `--flake` as given.
pub proof fn law_install_strategy(c: SshCommand, f: LocalFacts)
    requires
        plan_outcome(c, f) is Ok,
    ensures
        ({
            let p = plan_outcome(c, f)->Ok_0;
            &&& p.install_strategy == (if c.system is Some {
                InstallStrategy::CopyPrebuiltSystem
            } else if c.flake_source is Some {
                InstallStrategy::StageLocalFlake
            } else {
                InstallStrategy::InstallerBuildsFlake
            })
            &&& p.install_strategy_summary == strategy_summary(p.install_strategy)
            &&& c.flake_source is None ==> p.install_flake == c.flake@
            &&& c.flake_source is Some ==> exists|k: int|
                0 <= k < c.flake@.len() - 1 && #[trigger] c.flake@[k] == '#' && (forall|j: int|
                    0 <= j < k ==> c.flake@[j] != '#') && p.install_flake == "path:"@
                    + c.remote_workdir@ + "/flake-source"@ + "#"@ + c.flake@.skip(k + 1)
        }),
{
    if c.flake_source is Some {
        lemma_find(c.flake@, seq!['#']);
        let k = find(c.flake@, seq!['#'])->Some_0;
        assert(c.flake@.subrange(k, k + 1) == seq!['#']);
        assert(c.flake@[k] == c.flake@.subrange(k, k + 1)[0]);
        assert forall|j: int| 0 <= j < k implies c.flake@[j] != '#' by {
            assert(c.flake@.subrange(j, j + 1) != seq!['#']);
            if c.flake@[j] == '#' {
                assert(c.flake@.subrange(j, j + 1) =~= seq!['#']);
            }
        }
    }
}

// ---------------------------------------------------------------------------
// The milestones of the workflow
// ---------------------------------------------------------------------------

/// The index of the first command with phase `ph`, or the number of
/// commands when there is none.
pub open spec fn first_index(cmds: Seq<CommandModel>, ph: Phase) -> int
    decreases cmds.len(),
{
    if cmds.len() == 0 {
        0
    } else if cmds[0].phase == ph {
        0
    } else {
        1 + first_index(cmds.skip(1), ph)
    }
}

proof fn lemma_first_index(cmds: Seq<CommandModel>, ph: Phase, i: int)
    requires
        0 <= i < cmds.len(),
        cmds[i].phase == ph,
        forall|j: int| 0 <= j < i ==> #[trigger] cmds[j].phase != ph,
    ensures
        first_index(cmds, ph) == i,
    decreases i,
{
    if i > 0 {
        let t = cmds.skip(1);
        assert forall|j: int| 0 <= j < i - 1 implies #[trigger] t[j].phase != ph by {
            assert(t[j] == cmds[j + 1]);
        }
        lemma_first_index(t, ph, i - 1);
    }
}

/// The milestones of the documented workflow in order: the first preflight
/// check, kexec staging, kexec, wait for SSH, installer staging,
/// `disk-nix apply` and install step come in this order; every staging
/// step inside the installer comes before every `disk-nix apply` step; and
/// with a rollback hook, its disarming comes right before the final
/// reboot, or last when there is none.
#[verifier::opaque]
pub open spec fn milestones_in_order(cmds: Seq<CommandModel>, c: SshCommand) -> bool {
    &&& first_index(cmds, Phase::Preflight) < first_index(cmds, Phase::StageKexec)
    &&& first_index(cmds, Phase::StageKexec) < first_index(cmds, Phase::Kexec)
    &&& first_index(cmds, Phase::Kexec) < first_index(cmds, Phase::AwaitInstaller)
    &&& first_index(cmds, Phase::AwaitInstaller) < first_index(cmds, Phase::StageInstall)
    &&& first_index(cmds, Phase::StageInstall) < first_index(cmds, Phase::DiskNixApply)
    &&& first_index(cmds, Phase::DiskNixApply) < first_index(cmds, Phase::NixosInstall)
    &&& first_index(cmds, Phase::NixosInstall) < cmds.len()
    &&& forall|i: int, j: int|
        0 <= i < cmds.len() && 0 <= j < cmds.len() && #[trigger] cmds[i].phase == Phase::StageInstall
            && #[trigger] cmds[j].phase == Phase::DiskNixApply ==> i < j
    &&& c.identity_rollback_hook is Some ==> cmds.len() >= 2 && cmds[cmds.len() - (if c.no_final_reboot {
        1int
    } else {
        2int
    })] == disarm_model()
}

/// What the milestones rest on, piece by piece.
pub open spec fn milestone_parts(
    p: Seq<CommandModel>,
    k: Seq<CommandModel>,
    st: Seq<CommandModel>,
    ins: Seq<CommandModel>,
    cl: Seq<CommandModel>,
    c: SshCommand,
) -> bool {
    &&& forall|j: int| 0 <= j < p.len() ==> #[trigger] p[j].phase == Phase::StageHostIdentity
    &&& k.len() == 5
    &&& forall|m: int| 0 <= m < 5 ==> stage_rank(#[trigger] k[m].phase) == m
    &&& st.len() >= 2
    &&& st.last().phase == Phase::DiskNixApply
    &&& forall|i: int| 0 <= i < st.len() - 1 ==> #[trigger] st[i].phase == Phase::StageInstall
    &&& ins.len() >= 1
    &&& ins[0].phase == Phase::NixosInstall
    &&& stages_within(ins, 6, 6)
    &&& stages_within(cl, 6, 7)
    &&& c.identity_rollback_hook is Some ==> cl.len() == (if c.no_final_reboot {
        1int
    } else {
        2int
    }) && cl[0] == disarm_model()
}

proof fn lemma_first_indices(
    p: Seq<CommandModel>,
    k: Seq<CommandModel>,
    rest: Seq<CommandModel>,
)
    requires
        forall|j: int| 0 <= j < p.len() ==> #[trigger] p[j].phase == Phase::StageHostIdentity,
        k.len() == 5,
        forall|m: int| 0 <= m < 5 ==> stage_rank(#[trigger] k[m].phase) == m,
    ensures
        first_index(p + k + rest, Phase::Preflight) == p.len(),
        first_index(p + k + rest, Phase::StageKexec) == p.len() + 1,
        first_index(p + k + rest, Phase::Kexec) == p.len() + 2,
        first_index(p + k + rest, Phase::AwaitInstaller) == p.len() + 3,
        first_index(p + k + rest, Phase::StageInstall) == p.len() + 4,
{
    let cmds = p + k + rest;
    let n = p.len() as int;
    let phs = seq![
        Phase::Preflight,
        Phase::StageKexec,
        Phase::Kexec,
        Phase::AwaitInstaller,
        Phase::StageInstall,
    ];
    assert forall|m: int| 0 <= m < 5 implies first_index(cmds, #[trigger] phs[m]) == n + m by {
        assert(cmds[n + m] == k[m]);
        assert(stage_rank(k[m].phase) == m);
        assert forall|j: int| 0 <= j < n + m implies #[trigger] cmds[j].phase != phs[m] by {
            if j >= n {
                assert(cmds[j] == k[j - n]);
                assert(stage_rank(k[j - n].phase) == j - n);
            } else {
                assert(cmds[j] == p[j]);
            }
        }
        lemma_first_index(cmds, phs[m], n + m);
    }
    assert(first_index(cmds, phs[0]) == n);
    assert(first_index(cmds, phs[1]) == n + 1);
    assert(first_index(cmds, phs[2]) == n + 2);
    assert(first_index(cmds, phs[3]) == n + 3);
    assert(first_index(cmds, phs[4]) == n + 4);
}

#[verifier::rlimit(50)]
proof fn lemma_milestones_from_parts(
    p: Seq<CommandModel>,
    k: Seq<CommandModel>,
    st: Seq<CommandModel>,
    ins: Seq<CommandModel>,
    cl: Seq<CommandModel>,
    c: SshCommand,
)
    requires
        milestone_parts(p, k, st, ins, cl, c),
    ensures
        milestones_in_order(p + k + st + ins + cl, c),
{
    reveal(milestones_in_order);
    let cmds = p + k + st + ins + cl;
    let n = p.len() as int;
    assert(cmds == p + k + (st + ins + cl));
    lemma_first_indices(p, k, st + ins + cl);
    let a = n + 5 + st.len() - 1;
    let b = n + 5 + st.len();
    let e = b + ins.len();
    assert(cmds[a] == st[st.len() - 1]);
    assert(cmds[b] == ins[0]);
    assert forall|j: int| 0 <= j < a implies #[trigger] cmds[j].phase != Phase::DiskNixApply by {
        if j < n {
            assert(cmds[j] == p[j]);
        } else if j < n + 5 {
            assert(cmds[j] == k[j - n]);
            assert(stage_rank(k[j - n].phase) == j - n);
        } else {
            assert(cmds[j] == st[j - n - 5]);
        }
    }
    lemma_first_index(cmds, Phase::DiskNixApply, a);
    assert forall|j: int| 0 <= j < b implies #[trigger] cmds[j].phase != Phase::NixosInstall by {
        if j < n {
            assert(cmds[j] == p[j]);
        } else if j < n + 5 {
            assert(cmds[j] == k[j - n]);
            assert(stage_rank(k[j - n].phase) == j - n);
        } else {
            assert(cmds[j] == st[j - n - 5]);
        }
    }
    lemma_first_index(cmds, Phase::NixosInstall, b);
    assert forall|i: int| 0 <= i < cmds.len() && #[trigger] cmds[i].phase == Phase::StageInstall implies n + 4 <= i < a by {
        if i < n {
            assert(cmds[i] == p[i]);
        } else if i < n + 5 {
            assert(cmds[i] == k[i - n]);
            assert(stage_rank(k[i - n].phase) == i - n);
        } else if i == a {
        } else if i > a && i < e {
            assert(cmds[i] == ins[i - b]);
            assert(stage_rank(ins[i - b].phase) == 6);
        } else if i >= e {
            assert(cmds[i] == cl[i - e]);
            assert(stage_rank(cl[i - e].phase) >= 6);
        }
    }
    assert forall|j: int| 0 <= j < cmds.len() && #[trigger] cmds[j].phase == Phase::DiskNixApply implies j == a by {
        if j < a {
        } else if j > a && j < e {
            assert(cmds[j] == ins[j - b]);
            assert(stage_rank(ins[j - b].phase) == 6);
        } else if j >= e {
            assert(cmds[j] == cl[j - e]);
            assert(stage_rank(cl[j - e].phase) >= 6);
        }
    }
    if c.identity_rollback_hook is Some {
        let d = cmds.len() - (if c.no_final_reboot {
            1int
        } else {
            2int
        });
        assert(d == e);
        assert(cmds[d] == cl[0]);
    }
}

#[verifier::rlimit(100)]
#[verifier::spinoff_prover]
proof fn lemma_plan_commands_milestones(
    c: SshCommand,
    public_key: Option<Seq<char>>,
    identity_host: Option<Seq<char>>,
    append: Seq<char>,
    flake: Seq<char>,
)
    ensures
        milestones_in_order(plan_commands(c, public_key, identity_host, append, flake), c),
{
    let p = identity_prefix(c, identity_host, public_key);
    let k = kexec_phase(c, append);
    let st = staging_phase(c);
    let ins = install_phase(c, public_key, flake);
    let cl = closing_phase(c);
    lemma_identity_prefix_local(c, identity_host, public_key);
    lemma_kexec_phase_order(c, append);
    lemma_staging_phase_order(c);
    lemma_install_phase_stage(c, public_key, flake);
    lemma_install_phase_handoff(c, public_key, flake);
    lemma_closing_phase_order(c);
    assert forall|j: int| 0 <= j < p.len() implies #[trigger] p[j].phase == Phase::StageHostIdentity by {
        assert(is_local_identity_step(p[j]));
    }
    assert forall|m: int| 0 <= m < 5 implies stage_rank(#[trigger] k[m].phase) == m by {}
    assert(milestone_parts(p, k, st, ins, cl, c));
    lemma_milestones_from_parts(p, k, st, ins, cl, c);
    assert(plan_commands(c, public_key, identity_host, append, flake) == p + k + st + ins + cl);
}

/// The milestones of the documented workflow come in its order: the first
/// preflight check, kexec staging, kexec, wait for SSH, installer staging,
/// `disk-nix apply` and install step, each before the next; every staging
/// step inside the installer before every `disk-nix apply` step; and the
/// disarming of a rollback hook right before the final reboot, or last
/// without one.
pub proof fn law_workflow_milestones(c: SshCommand, f: LocalFacts)
    requires
        plan_outcome(c, f) is Ok,
    ensures
        milestones_in_order((plan_outcome(c, f)->Ok_0).commands, c),
        (plan_outcome(c, f)->Ok_0).ssh_tty == c.ssh_tty,
{
    lemma_plan_commands_of(c, f);
    lemma_plan_commands_milestones(
        c,
        host_key_public_outcome(c, f.probes@)->Ok_0,
        identity_host_outcome(c)->Ok_0,
        kexec_append_outcome(c, f.kexec_boot)->Ok_0,
        install_flake_outcome(c)->Ok_0,
    );
}

// ---------------------------------------------------------------------------
// No TTY inside the SSH loops
// ---------------------------------------------------------------------------

#[verifier::rlimit(100)]
#[verifier::spinoff_prover]
proof fn lemma_loop_commands(
    c: SshCommand,
    public_key: Option<Seq<char>>,
    identity_host: Option<Seq<char>>,
    append: Seq<char>,
    flake: Seq<char>,
)
    ensures
        ({
            let cmds = plan_commands(c, public_key, identity_host, append, flake);
            &&& forall|i: int|
                0 <= i < cmds.len() ==> (#[trigger] cmds[i].phase == Phase::Kexec ==> cmds[i]
                    == crate::plan::kexec_model(c, append)) && (cmds[i].phase
                    == Phase::AwaitInstaller ==> cmds[i] == crate::plan::await_model(c)) && (
                cmds[i].phase == Phase::StageKexec ==> cmds[i] == crate::plan::stage_kexec_model(c))
            &&& cmds[identity_prefix(c, identity_host, public_key).len() + 2int].phase == Phase::Kexec
            &&& identity_prefix(c, identity_host, public_key).len() + 2 < cmds.len()
        }),
{
    let cmds = plan_commands(c, public_key, identity_host, append, flake);
    let p = identity_prefix(c, identity_host, public_key);
    let k = kexec_phase(c, append);
    let st = staging_phase(c);
    let ins = install_phase(c, public_key, flake);
    let cl = closing_phase(c);
    lemma_identity_prefix_local(c, identity_host, public_key);
    lemma_kexec_phase_order(c, append);
    lemma_staging_phase_order(c);
    lemma_install_phase_stage(c, public_key, flake);
    lemma_closing_phase_order(c);
    lemma_concat_in_order(st, ins, 4, 5, 6);
    lemma_concat_in_order(st + ins, cl, 4, 6, 7);
    let rest = st + ins + cl;
    assert(cmds == p + k + rest);
    let n = p.len() as int;
    assert(cmds[n + 2] == k[2]);
    assert forall|i: int|
        0 <= i < cmds.len() implies (#[trigger] cmds[i].phase == Phase::Kexec ==> cmds[i]
        == crate::plan::kexec_model(c, append)) && (cmds[i].phase == Phase::AwaitInstaller
        ==> cmds[i] == crate::plan::await_model(c)) && (cmds[i].phase == Phase::StageKexec
        ==> cmds[i] == crate::plan::stage_kexec_model(c)) by {
        if i < n {
            assert(cmds[i] == p[i]);
            assert(is_local_identity_step(p[i]));
        } else if i < n + 5 {
            assert(cmds[i] == k[i - n]);
            assert(stage_rank(k[i - n].phase) == i - n);
        } else {
            assert(cmds[i] == rest[i - n - 5]);
            assert(stage_rank(rest[i - n - 5].phase) >= 4);
        }
    }
}

/// The steps that run SSH inside a shell loop, the kexec and the wait for
/// SSH, never ask for a TTY: when no SSH option, neither the target nor the
/// remote workdir, and not the kernel command line holds `-tt`, no argument
/// of those steps holds `-tt`, so none holds `ssh -tt`.
pub proof fn law_no_tty_in_ssh_loops(c: SshCommand, f: LocalFacts)
    requires
        plan_outcome(c, f) is Ok,
        crate::tty_text::all_free(c.ssh_options.deep_view()),
        crate::tty_text::free_of_tt(c.target@),
        crate::tty_text::free_of_tt(c.remote_workdir@),
        crate::tty_text::free_of_tt(kexec_append_outcome(c, f.kexec_boot)->Ok_0),
    ensures
        ({
            let cmds = (plan_outcome(c, f)->Ok_0).commands;
            forall|i: int, k: int|
                0 <= i < cmds.len() && (cmds[i].phase == Phase::Kexec || cmds[i].phase
                    == Phase::AwaitInstaller) && 0 <= k < cmds[i].argv.len()
                    ==> crate::tty_text::free_of_tt(#[trigger] cmds[i].argv[k])
                    && !crate::readback::occurs_in("ssh -tt"@, cmds[i].argv[k])
        }),
{
    lemma_plan_commands_of(c, f);
    let append = kexec_append_outcome(c, f.kexec_boot)->Ok_0;
    lemma_loop_commands(
        c,
        host_key_public_outcome(c, f.probes@)->Ok_0,
        identity_host_outcome(c)->Ok_0,
        append,
        install_flake_outcome(c)->Ok_0,
    );
    crate::tty_text::lemma_kexec_script_free(c, append);
    crate::tty_text::lemma_disconnect_script_free(c, crate::plan::kexec_script(c, append));
    crate::tty_text::lemma_await_script_free(c);
    lemma_sh_argv_free(crate::commands::disconnect_tolerant_script(c, crate::plan::kexec_script(c, append)));
    lemma_sh_argv_free(crate::commands::await_script(c));
    let cmds = (plan_outcome(c, f)->Ok_0).commands;
    assert forall|i: int, k: int|
        0 <= i < cmds.len() && (cmds[i].phase == Phase::Kexec || cmds[i].phase
            == Phase::AwaitInstaller) && 0 <= k < cmds[i].argv.len()
        implies crate::tty_text::free_of_tt(#[trigger] cmds[i].argv[k])
            && !crate::readback::occurs_in("ssh -tt"@, cmds[i].argv[k]) by {
        let a = cmds[i].argv[k];
        lemma_free_has_no_ssh_tt(a);
    }
}

proof fn lemma_sh_argv_free(script: Seq<char>)
    requires
        crate::tty_text::free_of_tt(script),
    ensures
        crate::tty_text::all_free(crate::commands::sh_argv(script)),
{
    reveal_strlit("sh");
    reveal_strlit("-c");
    let a = crate::commands::sh_argv(script);
    assert forall|j: int| !#[trigger] crate::tty_text::dash_tt_at("sh"@, j) by {}
    assert forall|j: int| !#[trigger] crate::tty_text::dash_tt_at("-c"@, j) by {}
    assert forall|i: int| 0 <= i < a.len() implies crate::tty_text::free_of_tt(#[trigger] a[i]) by {}
}

proof fn lemma_free_has_no_ssh_tt(a: Seq<char>)
    requires
        crate::tty_text::free_of_tt(a),
    ensures
        !crate::readback::occurs_in("ssh -tt"@, a),
{
    reveal_strlit("ssh -tt");
    if crate::readback::occurs_in("ssh -tt"@, a) {
        let j = choose|j: int| 0 <= j && j + "ssh -tt"@.len() <= a.len() && #[trigger] a.subrange(j, j + "ssh -tt"@.len()) == "ssh -tt"@;
        assert(a.subrange(j, j + 7)[4] == a[j + 4]);
        assert(a.subrange(j, j + 7)[5] == a[j + 5]);
        assert(a.subrange(j, j + 7)[6] == a[j + 6]);
        assert(crate::tty_text::dash_tt_at(a, j + 4));
    }
}

// ---------------------------------------------------------------------------
// The kexec loads what was uploaded
// ---------------------------------------------------------------------------

/// The remote fragment of the kexec step around its `kexec -l` line.
pub open spec fn kexec_fragment(line: Seq<char>) -> Seq<char> {
    "set -euo pipefail; "@ + line + "; echo 'nixos-kexec: entering kexec' >&2; sync; kexec -e"@
}

/// The kexec loads the files that the kexec staging uploaded: a plan has a
/// kexec step, and each runs, through the disconnect-tolerant SSH loop, a
/// `kexec -l` line that a shell reads as `kexec -l <workdir>/kexec/kernel
/// --initrd=<workdir>/kexec/initrd --append <command line>`. The staging
/// step copies `--kexec-kernel` to `<workdir>/kexec/kernel` and
/// `--kexec-initrd` to `<workdir>/kexec/initrd` with `scp`, when no SSH
/// option and neither file path is empty.
pub proof fn law_kexec_loads_the_uploaded_kernel(c: SshCommand, f: LocalFacts)
    requires
        plan_outcome(c, f) is Ok,
    ensures
        ({
            let cmds = (plan_outcome(c, f)->Ok_0).commands;
            let kernel = c.remote_workdir@ + "/kexec/kernel"@;
            let initrd = c.remote_workdir@ + "/kexec/initrd"@;
            let append = kexec_append_outcome(c, f.kexec_boot)->Ok_0;
            &&& exists|i: int| 0 <= i < cmds.len() && #[trigger] cmds[i].phase == Phase::Kexec
            &&& forall|i: int|
                0 <= i < cmds.len() && #[trigger] cmds[i].phase == Phase::Kexec ==> exists|
                    line: Seq<char>,
                |
                    #[trigger] crate::readback::read_command_line(line) == Some(
                        crate::readback::kexec_words(kernel, initrd, append),
                    ) && cmds[i].argv == crate::commands::sh_argv(
                        crate::commands::disconnect_tolerant_script(c, kexec_fragment(line)),
                    )
            &&& (forall|j: int|
                0 <= j < c.ssh_options@.len() ==> #[trigger] c.ssh_options@[j]@.len() > 0)
                && c.kexec_kernel@.len() > 0 && c.kexec_initrd@.len() > 0 ==> forall|i: int|
                0 <= i < cmds.len() && #[trigger] cmds[i].phase == Phase::StageKexec ==> exists|
                    l1: Seq<char>,
                    l2: Seq<char>,
                |
                    #[trigger] cmds[i].argv == crate::commands::sh_argv(l1 + " && "@ + l2)
                        && crate::readback::read_command_line(l1) == Some(
                        seq!["scp"@] + crate::commands::opts(c) + seq![
                            c.kexec_kernel@,
                            c.target@ + ":"@ + kernel,
                        ],
                    ) && crate::readback::read_command_line(l2) == Some(
                        seq!["scp"@] + crate::commands::opts(c) + seq![
                            c.kexec_initrd@,
                            c.target@ + ":"@ + initrd,
                        ],
                    )
        }),
{
    lemma_plan_commands_of(c, f);
    let public_key = host_key_public_outcome(c, f.probes@)->Ok_0;
    let identity_host = identity_host_outcome(c)->Ok_0;
    let append = kexec_append_outcome(c, f.kexec_boot)->Ok_0;
    let flake = install_flake_outcome(c)->Ok_0;
    lemma_loop_commands(c, public_key, identity_host, append, flake);
    let cmds = (plan_outcome(c, f)->Ok_0).commands;
    let kernel = c.remote_workdir@ + "/kexec/kernel"@;
    let initrd = c.remote_workdir@ + "/kexec/initrd"@;
    reveal_strlit("/kexec/kernel");
    reveal_strlit("/kexec/initrd");
    let n = identity_prefix(c, identity_host, public_key).len() as int;
    assert(cmds[n + 2].phase == Phase::Kexec);
    let line = "kexec -l "@ + shell_quoted(kernel) + " --initrd="@ + shell_quoted(initrd)
        + " --append "@ + shell_quoted(append);
    crate::readback::lemma_kexec_line_reads_back(kernel, initrd, append);
    reveal_strlit("set -euo pipefail; kexec -l ");
    reveal_strlit("set -euo pipefail; ");
    reveal_strlit("kexec -l ");
    assert(crate::plan::kexec_script(c, append) =~= kexec_fragment(line));
    assert forall|i: int| 0 <= i < cmds.len() && #[trigger] cmds[i].phase == Phase::Kexec implies exists|
        line: Seq<char>,
    |
        #[trigger] crate::readback::read_command_line(line) == Some(
            crate::readback::kexec_words(kernel, initrd, append),
        ) && cmds[i].argv == crate::commands::sh_argv(
            crate::commands::disconnect_tolerant_script(c, kexec_fragment(line)),
        ) by {
        assert(cmds[i] == crate::plan::kexec_model(c, append));
        assert(crate::readback::read_command_line(line) == Some(
            crate::readback::kexec_words(kernel, initrd, append),
        ));
    }
    if (forall|j: int| 0 <= j < c.ssh_options@.len() ==> #[trigger] c.ssh_options@[j]@.len() > 0)
        && c.kexec_kernel@.len() > 0 && c.kexec_initrd@.len() > 0 {
        lemma_stage_kexec_lines(c);
        lemma_scp_words_nonempty(c, c.kexec_kernel@, kernel);
        lemma_scp_words_nonempty(c, c.kexec_initrd@, initrd);
        let l1 = crate::commands::scp_line(c, (c.kexec_kernel@, kernel));
        let l2 = crate::commands::scp_line(c, (c.kexec_initrd@, initrd));
        assert forall|i: int| 0 <= i < cmds.len() && #[trigger] cmds[i].phase == Phase::StageKexec implies exists|
            l1: Seq<char>,
            l2: Seq<char>,
        |
            #[trigger] cmds[i].argv == crate::commands::sh_argv(l1 + " && "@ + l2)
                && crate::readback::read_command_line(l1) == Some(
                seq!["scp"@] + crate::commands::opts(c) + seq![c.kexec_kernel@, c.target@ + ":"@ + kernel],
            ) && crate::readback::read_command_line(l2) == Some(
                seq!["scp"@] + crate::commands::opts(c) + seq![c.kexec_initrd@, c.target@ + ":"@ + initrd],
            ) by {
            assert(cmds[i] == crate::plan::stage_kexec_model(c));
            assert(cmds[i].argv == crate::commands::sh_argv(l1 + " && "@ + l2));
        }
    }
}

proof fn lemma_scp_words_nonempty(c: SshCommand, local: Seq<char>, remote: Seq<char>)
    requires
        forall|j: int| 0 <= j < c.ssh_options@.len() ==> #[trigger] c.ssh_options@[j]@.len() > 0,
        local.len() > 0,
    ensures
        crate::readback::read_command_line(
            crate::commands::scp_line(c, (local, remote)),
        ) == Some(seq!["scp"@] + crate::commands::opts(c) + seq![local, c.target@ + ":"@ + remote]),
{
    reveal_strlit("scp");
    reveal_strlit("-o");
    reveal_strlit(":");
    let options = c.ssh_options.deep_view();
    lemma_option_args_words(options);
    let o = crate::commands::opts(c);
    let args = seq!["scp"@] + o + seq![local, c.target@ + ":"@ + remote];
    assert(crate::commands::scp_argv(c, seq![local, crate::commands::remote_spec(c, remote)])
        =~= args);
    assert forall|i: int| 0 <= i < args.len() implies #[trigger] args[i].len() > 0 by {
        if 1 <= i <= o.len() {
            assert(args[i] == o[i - 1]);
            if o[i - 1] != "-o"@ {
                let j = choose|j: int| 0 <= j < options.len() && o[i - 1] == options[j];
                assert(options[j] == c.ssh_options@[j]@);
            }
        }
    }
    crate::readback::law_command_line_reads_back(args);
}

proof fn lemma_stage_kexec_lines(c: SshCommand)
    requires
        forall|j: int| 0 <= j < c.ssh_options@.len() ==> #[trigger] c.ssh_options@[j]@.len() > 0,
        c.kexec_kernel@.len() > 0,
        c.kexec_initrd@.len() > 0,
    ensures
        ({
            let m = crate::plan::stage_kexec_model(c);
            let l1 = crate::commands::scp_line(c, (c.kexec_kernel@, crate::plan::remote_kernel(c)));
            let l2 = crate::commands::scp_line(c, (c.kexec_initrd@, crate::plan::remote_initrd(c)));
            m.argv == crate::commands::sh_argv(l1 + " && "@ + l2)
        }),
{
    let files = seq![
        (c.kexec_kernel@, crate::plan::remote_kernel(c)),
        (c.kexec_initrd@, crate::plan::remote_initrd(c)),
    ];
    let ls = files.map_values(|f: (Seq<char>, Seq<char>)| crate::commands::scp_line(c, f));
    assert(ls.drop_last() =~= seq![ls[0]]);
    assert(crate::text::seq_join(ls.drop_last(), " && "@) == ls[0]);
}

} // verus!
