//! What the rendered texts hold: the script lists the plan's commands in
//! the plan's order, the plan summary shows every warning, the installer
//! summary ends with a command line that runs the planned build, and the
//! installer expression binds each flake to the option of its name.
use vstd::prelude::*;
use vstd::string::*;

use crate::commands::{phase_name, rendered};
use crate::installer::{installer_expr, installer_outcome};
use crate::model::{CommandModel, InstallerBuildCommand, InstallerFacts, InstallerPlanModel, PlanModel};
use crate::quote::{nix_list_of, nix_quoted};
use crate::readback::{law_command_line_reads_back, occurs_in, read_command_line};
use crate::render::{
    installer_summary, plan_summary, prefixed_lines, script_commands, script_text,
    summary_commands, summary_head, summary_identity, summary_inputs, SCRIPT_HEADER,
};

verus! {

// ---------------------------------------------------------------------------
// Lines and blocks, first to last
// ---------------------------------------------------------------------------

/// One line per item, `prefix` before each, in the items' order.
pub open spec fn lines_in_order(prefix: Seq<char>, items: Seq<Seq<char>>) -> Seq<char>
    decreases items.len(),
{
    if items.len() == 0 {
        Seq::empty()
    } else {
        prefix + items[0] + "\n"@ + lines_in_order(prefix, items.skip(1))
    }
}

/// How one command is shown in a script: a comment naming its phase and
/// description, then the command itself.
pub open spec fn script_block(m: CommandModel) -> Seq<char> {
    "\n# "@ + phase_name(m.phase) + ": "@ + m.description + "\n"@ + rendered(m) + "\n"@
}

/// The blocks of `cmds`, the first command's first.
pub open spec fn blocks_in_order(cmds: Seq<CommandModel>) -> Seq<char>
    decreases cmds.len(),
{
    if cmds.len() == 0 {
        Seq::empty()
    } else {
        script_block(cmds[0]) + blocks_in_order(cmds.skip(1))
    }
}

proof fn lemma_lines_push(prefix: Seq<char>, items: Seq<Seq<char>>, x: Seq<char>)
    ensures
        lines_in_order(prefix, items.push(x)) == lines_in_order(prefix, items) + prefix + x + "\n"@,
    decreases items.len(),
{
    if items.len() == 0 {
        assert(items.push(x).skip(1) =~= Seq::<Seq<char>>::empty());
        assert(items.push(x)[0] == x);
        assert(lines_in_order(prefix, items.push(x).skip(1)) =~= Seq::<char>::empty());
        assert(lines_in_order(prefix, items.push(x)) =~= prefix + x + "\n"@);
        assert(lines_in_order(prefix, items) =~= Seq::<char>::empty());
        assert(lines_in_order(prefix, items) + prefix + x + "\n"@ =~= prefix + x + "\n"@);
    } else {
        lemma_lines_push(prefix, items.skip(1), x);
        assert(items.push(x).skip(1) =~= items.skip(1).push(x));
        assert(items.push(x)[0] == items[0]);
        assert(lines_in_order(prefix, items.push(x)) =~= lines_in_order(prefix, items) + prefix + x
            + "\n"@);
    }
}

proof fn lemma_prefixed_lines_in_order(prefix: Seq<char>, items: Seq<Seq<char>>)
    ensures
        prefixed_lines(prefix, items) == lines_in_order(prefix, items),
    decreases items.len(),
{
    if items.len() > 0 {
        let d = items.drop_last();
        lemma_prefixed_lines_in_order(prefix, d);
        lemma_lines_push(prefix, d, items.last());
        assert(d.push(items.last()) =~= items);
    } else {
        assert(prefixed_lines(prefix, items) =~= lines_in_order(prefix, items));
    }
}

proof fn lemma_blocks_push(cmds: Seq<CommandModel>, x: CommandModel)
    ensures
        blocks_in_order(cmds.push(x)) == blocks_in_order(cmds) + script_block(x),
    decreases cmds.len(),
{
    if cmds.len() == 0 {
        assert(cmds.push(x).skip(1) =~= Seq::<CommandModel>::empty());
        assert(cmds.push(x)[0] == x);
        assert(blocks_in_order(cmds.push(x).skip(1)) =~= Seq::<char>::empty());
        assert(blocks_in_order(cmds.push(x)) =~= script_block(x));
        assert(blocks_in_order(cmds) + script_block(x) =~= script_block(x));
    } else {
        lemma_blocks_push(cmds.skip(1), x);
        assert(cmds.push(x).skip(1) =~= cmds.skip(1).push(x));
        assert(cmds.push(x)[0] == cmds[0]);
        assert(blocks_in_order(cmds.push(x)) =~= blocks_in_order(cmds) + script_block(x));
    }
}

proof fn lemma_script_commands_in_order(cmds: Seq<CommandModel>)
    ensures
        script_commands(cmds) == blocks_in_order(cmds),
    decreases cmds.len(),
{
    if cmds.len() > 0 {
        let d = cmds.drop_last();
        lemma_script_commands_in_order(d);
        lemma_blocks_push(d, cmds.last());
        assert(d.push(cmds.last()) =~= cmds);
        assert(script_commands(cmds) =~= script_commands(d) + script_block(cmds.last()));
    } else {
        assert(script_commands(cmds) =~= blocks_in_order(cmds));
    }
}

proof fn lemma_blocks_split(cmds: Seq<CommandModel>, k: int)
    requires
        0 <= k < cmds.len(),
    ensures
        blocks_in_order(cmds) == blocks_in_order(cmds.take(k)) + script_block(cmds[k])
            + blocks_in_order(cmds.skip(k + 1)),
    decreases k,
{
    if k == 0 {
        assert(cmds.take(0) =~= Seq::<CommandModel>::empty());
        assert(blocks_in_order(cmds.take(0)) =~= Seq::<char>::empty());
    } else {
        let t = cmds.skip(1);
        lemma_blocks_split(t, k - 1);
        assert(t.take(k - 1) =~= cmds.take(k).skip(1));
        assert(cmds.take(k)[0] == cmds[0]);
        assert(t[k - 1] == cmds[k]);
        assert(t.skip(k) =~= cmds.skip(k + 1));
    }
}

proof fn lemma_lines_at(prefix: Seq<char>, items: Seq<Seq<char>>, k: int)
    requires
        0 <= k < items.len(),
    ensures
        occurs_in(prefix + items[k] + "\n"@, lines_in_order(prefix, items)),
    decreases k,
{
    let line = prefix + items[k] + "\n"@;
    let all = lines_in_order(prefix, items);
    if k == 0 {
        let rest = lines_in_order(prefix, items.skip(1));
        assert(all == line + rest);
        assert(all.subrange(0, 0 + line.len() as int) =~= line);
        assert(occurs_in(line, all));
    } else {
        lemma_lines_at(prefix, items.skip(1), k - 1);
        assert(items.skip(1)[k - 1] == items[k]);
        let head = prefix + items[0] + "\n"@;
        let rest = lines_in_order(prefix, items.skip(1));
        assert(all == head + rest);
        let j = choose|j: int|
            0 <= j && j + line.len() <= rest.len() && #[trigger] rest.subrange(j, j + line.len())
                == line;
        let j2 = head.len() + j;
        assert(all.subrange(j2, j2 + line.len()) =~= rest.subrange(j, j + line.len()));
        assert(occurs_in(line, all));
    }
}

proof fn lemma_occurs_in_middle(u: Seq<char>, t: Seq<char>, v: Seq<char>)
    ensures
        occurs_in(t, u + t + v),
{
    let s = u + t + v;
    assert(s.subrange(u.len() as int, u.len() + t.len() as int) =~= t);
}

// ---------------------------------------------------------------------------
// The script
// ---------------------------------------------------------------------------

/// The orchestration script of a plan is its header, the strategy line and
/// one `# WARNING:` line per warning in order, then one block per command
/// in the plan's order: the `k`-th block shown is that of the plan's `k`-th
/// command, so the script runs the commands in the order they are planned.
pub proof fn law_script_runs_commands_in_plan_order(plan: PlanModel)
    ensures
        script_text(plan) == SCRIPT_HEADER@ + "# INSTALL STRATEGY: "@ + plan.install_strategy_summary
            + "\n"@ + lines_in_order("# WARNING: "@, plan.warnings) + blocks_in_order(
            plan.commands,
        ),
        forall|k: int|
            0 <= k < plan.commands.len() ==> script_text(plan) == SCRIPT_HEADER@
                + "# INSTALL STRATEGY: "@ + plan.install_strategy_summary + "\n"@ + lines_in_order(
                "# WARNING: "@,
                plan.warnings,
            ) + blocks_in_order(plan.commands.take(k)) + script_block(#[trigger] plan.commands[k])
                + blocks_in_order(plan.commands.skip(k + 1)),
{
    lemma_prefixed_lines_in_order("# WARNING: "@, plan.warnings);
    lemma_script_commands_in_order(plan.commands);
    assert forall|k: int| 0 <= k < plan.commands.len() implies script_text(plan) == SCRIPT_HEADER@
        + "# INSTALL STRATEGY: "@ + plan.install_strategy_summary + "\n"@ + lines_in_order(
        "# WARNING: "@,
        plan.warnings,
    ) + blocks_in_order(plan.commands.take(k)) + script_block(#[trigger] plan.commands[k])
        + blocks_in_order(plan.commands.skip(k + 1)) by {
        lemma_blocks_split(plan.commands, k);
        assert(script_text(plan) =~= SCRIPT_HEADER@ + "# INSTALL STRATEGY: "@
            + plan.install_strategy_summary + "\n"@ + lines_in_order("# WARNING: "@, plan.warnings)
            + blocks_in_order(plan.commands.take(k)) + script_block(plan.commands[k])
            + blocks_in_order(plan.commands.skip(k + 1)));
    }
}

// ---------------------------------------------------------------------------
// The plan summary
// ---------------------------------------------------------------------------

/// The plan summary shows every warning of the plan: after the target,
/// input and identity lines and a blank line come the lines `warning: w`,
/// one per warning in order, then a blank line and the commands; each
/// warning's line occurs in the summary.
pub proof fn law_plan_summary_shows_every_warning(plan: PlanModel)
    ensures
        plan_summary(plan) == summary_head(plan) + summary_inputs(plan) + summary_identity(plan)
            + "\n"@ + lines_in_order("warning: "@, plan.warnings) + "\n"@ + summary_commands(
            plan.commands,
        ),
        forall|k: int|
            0 <= k < plan.warnings.len() ==> occurs_in(
                "warning: "@ + #[trigger] plan.warnings[k] + "\n"@,
                plan_summary(plan),
            ),
{
    lemma_prefixed_lines_in_order("warning: "@, plan.warnings);
    let before = summary_head(plan) + summary_inputs(plan) + summary_identity(plan) + "\n"@;
    let lines = lines_in_order("warning: "@, plan.warnings);
    let after = "\n"@ + summary_commands(plan.commands);
    assert(plan_summary(plan) =~= before + lines + after);
    assert forall|k: int| 0 <= k < plan.warnings.len() implies occurs_in(
        "warning: "@ + #[trigger] plan.warnings[k] + "\n"@,
        plan_summary(plan),
    ) by {
        let line = "warning: "@ + plan.warnings[k] + "\n"@;
        lemma_lines_at("warning: "@, plan.warnings, k);
        let j = choose|j: int|
            0 <= j && j + line.len() <= lines.len() && #[trigger] lines.subrange(j, j + line.len())
                == line;
        let s = plan_summary(plan);
        assert(s.subrange(before.len() + j, before.len() + j + line.len()) =~= lines.subrange(
            j,
            j + line.len(),
        ));
    }
}

/// How one command is listed in the plan summary.
pub open spec fn summary_entry(m: CommandModel) -> Seq<char> {
    "["@ + phase_name(m.phase) + "] "@ + (if m.mutates {
        "mutates"@
    } else {
        "read-only"@
    }) + ": "@ + m.description + "\n"@ + "  "@ + rendered(m) + "\n"@
}

/// The entries of `cmds`, the first command's first.
pub open spec fn entries_in_order(cmds: Seq<CommandModel>) -> Seq<char>
    decreases cmds.len(),
{
    if cmds.len() == 0 {
        Seq::empty()
    } else {
        summary_entry(cmds[0]) + entries_in_order(cmds.skip(1))
    }
}

proof fn lemma_entries_push(cmds: Seq<CommandModel>, x: CommandModel)
    ensures
        entries_in_order(cmds.push(x)) == entries_in_order(cmds) + summary_entry(x),
    decreases cmds.len(),
{
    if cmds.len() == 0 {
        assert(cmds.push(x).skip(1) =~= Seq::<CommandModel>::empty());
        assert(cmds.push(x)[0] == x);
        assert(entries_in_order(cmds.push(x).skip(1)) =~= Seq::<char>::empty());
        assert(entries_in_order(cmds.push(x)) =~= summary_entry(x));
        assert(entries_in_order(cmds) + summary_entry(x) =~= summary_entry(x));
    } else {
        lemma_entries_push(cmds.skip(1), x);
        assert(cmds.push(x).skip(1) =~= cmds.skip(1).push(x));
        assert(cmds.push(x)[0] == cmds[0]);
        assert(entries_in_order(cmds.push(x)) =~= entries_in_order(cmds) + summary_entry(x));
    }
}

/// The plan summary lists the plan's commands in the plan's order, one
/// entry each: its phase, whether it mutates, its description, and the
/// command line.
pub proof fn law_plan_summary_lists_commands_in_order(cmds: Seq<CommandModel>)
    ensures
        summary_commands(cmds) == entries_in_order(cmds),
    decreases cmds.len(),
{
    if cmds.len() > 0 {
        let d = cmds.drop_last();
        law_plan_summary_lists_commands_in_order(d);
        lemma_entries_push(d, cmds.last());
        assert(d.push(cmds.last()) =~= cmds);
        assert(summary_commands(cmds) =~= summary_commands(d) + summary_entry(cmds.last()));
    } else {
        assert(summary_commands(cmds) =~= entries_in_order(cmds));
    }
}

// ---------------------------------------------------------------------------
// The installer summary and expression
// ---------------------------------------------------------------------------

/// The installer summary ends with a line that a shell reads back as the
/// planned `nix build` argv, when no argument is empty: the printed command
/// is the build that `installer build` runs.
pub proof fn law_installer_summary_ends_with_the_build(plan: InstallerPlanModel)
    requires
        forall|i: int| 0 <= i < plan.argv.len() ==> #[trigger] plan.argv[i].len() > 0,
    ensures
        exists|line: Seq<char>|
            #[trigger] read_command_line(line) == Some(plan.argv) && installer_summary(plan).len()
                >= line.len() + 2 && installer_summary(plan).skip(
                installer_summary(plan).len() - line.len() - 2,
            ) == "\n"@ + line + "\n"@,
{
    law_command_line_reads_back(plan.argv);
    let line = crate::quote::shell_line(plan.argv);
    let s = installer_summary(plan);
    reveal_strlit("\n");
    assert(s.skip(s.len() - line.len() - 2) =~= "\n"@ + line + "\n"@);
}

#[verifier::rlimit(50)]
proof fn lemma_expr_flakes(c: InstallerBuildCommand, keys: Seq<Seq<char>>)
    ensures
        occurs_in(
            "nixosKexec = builtins.getFlake "@ + nix_quoted(c.nixos_kexec_flake@) + ";"@,
            installer_expr(c, keys),
        ),
        occurs_in(
            "nixpkgs = builtins.getFlake "@ + nix_quoted(c.nixpkgs_flake@) + ";"@,
            installer_expr(c, keys),
        ),
        occurs_in(
            "disk-nix = builtins.getFlake "@ + nix_quoted(c.disk_nix_flake@) + ";"@,
            installer_expr(c, keys),
        ),
{
    reveal_strlit("let\n  nixosKexec = builtins.getFlake ");
    reveal_strlit(";\n  nixpkgs = builtins.getFlake ");
    reveal_strlit(";\n  disk-nix = builtins.getFlake ");
    reveal_strlit(
        ";\n  installer = import (nixosKexec + \"/examples/kexec-installer.nix\") {\n    inherit disk-nix nixpkgs;\n    authorizedKeys = ",
    );
    reveal_strlit("nixosKexec = builtins.getFlake ");
    reveal_strlit("nixpkgs = builtins.getFlake ");
    reveal_strlit("disk-nix = builtins.getFlake ");
    reveal_strlit(";");
    reveal_strlit("let\n  ");
    reveal_strlit("\n  ");
    let e = installer_expr(c, keys);
    let a = nix_quoted(c.nixos_kexec_flake@);
    let b = nix_quoted(c.nixpkgs_flake@);
    let d = nix_quoted(c.disk_nix_flake@);
    let l1 = "let\n  nixosKexec = builtins.getFlake "@;
    let l2 = ";\n  nixpkgs = builtins.getFlake "@;
    let l3 = ";\n  disk-nix = builtins.getFlake "@;
    let l4 = ";\n  installer = import (nixosKexec + \"/examples/kexec-installer.nix\") {\n    inherit disk-nix nixpkgs;\n    authorizedKeys = "@;
    let tail = e.skip((l1.len() + a.len() + l2.len() + b.len() + l3.len() + d.len() + l4.len()) as int);
    assert(e =~= l1 + a + l2 + b + l3 + d + l4 + tail);
    assert(l1 =~= "let\n  "@ + "nixosKexec = builtins.getFlake "@);
    assert(l2 =~= ";"@ + "\n  "@ + "nixpkgs = builtins.getFlake "@);
    assert(l3 =~= ";"@ + "\n  "@ + "disk-nix = builtins.getFlake "@);
    assert(l4 =~= ";"@ + l4.skip(1));
    let t1 = "nixosKexec = builtins.getFlake "@ + a + ";"@;
    let t2 = "nixpkgs = builtins.getFlake "@ + b + ";"@;
    let t3 = "disk-nix = builtins.getFlake "@ + d + ";"@;
    lemma_occurs_in_middle("let\n  "@, t1, "\n  "@ + "nixpkgs = builtins.getFlake "@ + b + l3 + d + l4 + tail);
    assert(e =~= "let\n  "@ + t1 + ("\n  "@ + "nixpkgs = builtins.getFlake "@ + b + l3 + d + l4
        + tail));
    lemma_occurs_in_middle(l1 + a + ";"@ + "\n  "@, t2, "\n  "@ + "disk-nix = builtins.getFlake "@ + d + l4 + tail);
    assert(e =~= l1 + a + ";"@ + "\n  "@ + t2 + ("\n  "@ + "disk-nix = builtins.getFlake "@ + d + l4
        + tail));
    lemma_occurs_in_middle(l1 + a + l2 + b + ";"@ + "\n  "@, t3, l4.skip(1) + tail);
    assert(e =~= l1 + a + l2 + b + ";"@ + "\n  "@ + t3 + (l4.skip(1) + tail));
}

#[verifier::rlimit(50)]
proof fn lemma_expr_keys_system(c: InstallerBuildCommand, keys: Seq<Seq<char>>)
    ensures
        occurs_in("authorizedKeys = "@ + nix_list_of(keys) + ";"@, installer_expr(c, keys)),
        occurs_in("system = "@ + nix_quoted(c.system@) + ";"@, installer_expr(c, keys)),
{
    reveal_strlit("let\n  nixosKexec = builtins.getFlake ");
    reveal_strlit(";\n  nixpkgs = builtins.getFlake ");
    reveal_strlit(";\n  disk-nix = builtins.getFlake ");
    reveal_strlit(
        ";\n  installer = import (nixosKexec + \"/examples/kexec-installer.nix\") {\n    inherit disk-nix nixpkgs;\n    authorizedKeys = ",
    );
    reveal_strlit(";");
    let e = installer_expr(c, keys);
    let a = nix_quoted(c.nixos_kexec_flake@);
    let b = nix_quoted(c.nixpkgs_flake@);
    let d = nix_quoted(c.disk_nix_flake@);
    let l1 = "let\n  nixosKexec = builtins.getFlake "@;
    let l2 = ";\n  nixpkgs = builtins.getFlake "@;
    let l3 = ";\n  disk-nix = builtins.getFlake "@;
    let l4 = ";\n  installer = import (nixosKexec + \"/examples/kexec-installer.nix\") {\n    inherit disk-nix nixpkgs;\n    authorizedKeys = "@;
    reveal_strlit("authorizedKeys = ");
    reveal_strlit(";\n    networkManagerProfiles = ");
    reveal_strlit(";\n    system = ");
    reveal_strlit("system = ");
    reveal_strlit(";\n  };\nin\ninstaller.config.system.build.kexecTree");
    let ks = nix_list_of(keys);
    let l5 = ";\n    networkManagerProfiles = "@;
    let pr = crate::installer::profiles_expr(c.network_manager_profiles_json.deep_view());
    let l6 = ";\n    system = "@;
    let sy = nix_quoted(c.system@);
    let l7 = ";\n  };\nin\ninstaller.config.system.build.kexecTree"@;
    let front = l1 + a + l2 + b + l3 + d;
    assert(e =~= front + l4 + ks + l5 + pr + l6 + sy + l7);
    let l4a = l4.take(l4.len() - "authorizedKeys = "@.len());
    assert(l4 =~= l4a + "authorizedKeys = "@);
    assert(l5 =~= ";"@ + l5.skip(1));
    let t4 = "authorizedKeys = "@ + ks + ";"@;
    lemma_occurs_in_middle(front + l4a, t4, l5.skip(1) + pr + l6 + sy + l7);
    assert(e =~= front + l4a + t4 + (l5.skip(1) + pr + l6 + sy + l7));
    let l6a = l6.take(l6.len() - "system = "@.len());
    assert(l6 =~= l6a + "system = "@);
    assert(l7 =~= ";"@ + l7.skip(1));
    let t5 = "system = "@ + sy + ";"@;
    lemma_occurs_in_middle(front + l4 + ks + l5 + pr + l6a, t5, l7.skip(1));
    assert(e =~= front + l4 + ks + l5 + pr + l6a + t5 + l7.skip(1));
}


/// The installer expression binds each flake to the option of its name:
/// it holds `nixosKexec = builtins.getFlake`, `nixpkgs = builtins.getFlake`
/// and `disk-nix = builtins.getFlake`, each followed by the Nix string of
/// `--nixos-kexec-flake`, `--nixpkgs-flake` and `--disk-nix-flake`; and it
/// passes the collected authorized keys as `authorizedKeys` and `--system`
/// as `system`.
pub proof fn law_installer_binds_flakes_by_name(c: InstallerBuildCommand, f: InstallerFacts)
    requires
        installer_outcome(c, f) is Ok,
    ensures
        occurs_in(
            "nixosKexec = builtins.getFlake "@ + nix_quoted(c.nixos_kexec_flake@) + ";"@,
            (installer_outcome(c, f)->Ok_0).expression,
        ),
        occurs_in(
            "nixpkgs = builtins.getFlake "@ + nix_quoted(c.nixpkgs_flake@) + ";"@,
            (installer_outcome(c, f)->Ok_0).expression,
        ),
        occurs_in(
            "disk-nix = builtins.getFlake "@ + nix_quoted(c.disk_nix_flake@) + ";"@,
            (installer_outcome(c, f)->Ok_0).expression,
        ),
        occurs_in(
            "authorizedKeys = "@ + nix_list_of(crate::installer::keys_outcome(c, f)->Ok_0) + ";"@,
            (installer_outcome(c, f)->Ok_0).expression,
        ),
        occurs_in("system = "@ + nix_quoted(c.system@) + ";"@, (installer_outcome(c, f)->Ok_0).expression),
{
    let keys = crate::installer::keys_outcome(c, f)->Ok_0;
    assert((installer_outcome(c, f)->Ok_0).expression == installer_expr(c, keys));
    lemma_expr_flakes(c, keys);
    lemma_expr_keys_system(c, keys);
}

} // verus!
