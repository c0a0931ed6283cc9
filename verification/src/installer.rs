//! The `nix build` of the kexec installer tree: authorized keys, the Nix
//! expression and the build command.
use vstd::prelude::*;
use vstd::string::*;

use crate::facts::{is_file, missing_file_message, require_file};
use crate::model::{AppError, InstallerBuildCommand, InstallerBuildPlan, InstallerFacts, InstallerPlanModel};
use crate::quote::{nix_list, nix_list_of, nix_quoted, nix_string};
use crate::text::{copy_opt, copy_strings, owned, push_char, trim, trim_str};

verus! {

// ---------------------------------------------------------------------------
// Authorized keys
// ---------------------------------------------------------------------------

/// The pieces of `s` between newlines, after the piece `cur` already begun.
pub open spec fn pieces_from(s: Seq<char>, cur: Seq<char>) -> Seq<Seq<char>>
    decreases s.len(),
{
    if s.len() == 0 {
        seq![cur]
    } else if s[0] == '\n' {
        seq![cur] + pieces_from(s.skip(1), Seq::empty())
    } else {
        pieces_from(s.skip(1), cur.push(s[0]))
    }
}

/// The pieces of a text between newlines.
pub open spec fn split_lines(s: Seq<char>) -> Seq<Seq<char>> {
    pieces_from(s, Seq::empty())
}

/// A line kept as a key: trimmed, not empty and not a `#` comment.
pub open spec fn kept(line: Seq<char>) -> Seq<Seq<char>> {
    let t = trim(line);
    if t.len() == 0 || t[0] == '#' {
        Seq::empty()
    } else {
        seq![t]
    }
}

/// The keys of a list of lines.
pub open spec fn kept_lines(lines: Seq<Seq<char>>) -> Seq<Seq<char>>
    decreases lines.len(),
{
    if lines.len() == 0 {
        Seq::empty()
    } else {
        kept_lines(lines.drop_last()) + kept(lines.last())
    }
}

/// The keys of an authorized_keys text: its lines, trimmed, without empty
/// lines and comments. (A carriage return before a newline is whitespace
/// and goes with the trimming.)
pub open spec fn text_keys(text: Seq<char>) -> Seq<Seq<char>> {
    kept_lines(split_lines(text))
}

fn keep_line(keys: &mut Vec<String>, line: &String)
    ensures
        final(keys).deep_view() == old(keys).deep_view() + kept(line@),
{
    let t = trim_str(line.as_str());
    let ghost before = keys.deep_view();
    if !t.as_str().is_empty() && !crate::text::starts_with_char(t.as_str(), '#') {
        keys.push(t);
    }
    assert(keys.deep_view() =~= before + kept(line@));
}

/// Appends the keys of an authorized_keys text.
pub fn push_text_keys(keys: &mut Vec<String>, text: &str)
    ensures
        final(keys).deep_view() == old(keys).deep_view() + text_keys(text@),
{
    let ghost start = keys.deep_view();
    let ghost mut done: Seq<Seq<char>> = Seq::empty();
    let mut cur = String::new();
    let v = crate::text::chars_of(text);
    let mut i: usize = 0;
    assert(text@.skip(0) =~= text@);
    while i < v.len()
        invariant
            v@ == text@,
            0 <= i <= v@.len(),
            split_lines(text@) == done + pieces_from(text@.skip(i as int), cur@),
            keys.deep_view() == start + kept_lines(done),
        decreases v@.len() - i,
    {
        let c = v[i];
        assert(text@.skip(i as int)[0] == c);
        assert(text@.skip(i as int).skip(1) =~= text@.skip(i + 1));
        if c == '\n' {
            keep_line(keys, &cur);
            proof {
                assert((done.push(cur@)).drop_last() =~= done);
                assert(seq![cur@] + pieces_from(text@.skip(i + 1), Seq::empty()) =~= seq![cur@]
                    + pieces_from(text@.skip(i + 1), Seq::empty()));
                assert(done + (seq![cur@] + pieces_from(text@.skip(i + 1), Seq::empty())) =~= done.push(
                    cur@,
                ) + pieces_from(text@.skip(i + 1), Seq::empty()));
                done = done.push(cur@);
            }
            cur = String::new();
        } else {
            push_char(&mut cur, c);
        }
        i += 1;
    }
    assert(text@.skip(v@.len() as int) =~= Seq::<char>::empty());
    keep_line(keys, &cur);
    proof {
        assert(done.push(cur@).drop_last() =~= done);
        assert(split_lines(text@) =~= done.push(cur@));
    }
}

/// The refusal for an unreadable key file.
pub open spec fn unreadable_key_message(path: Seq<char>, error: Seq<char>) -> Seq<char> {
    "could not read authorized key file "@ + path + ": "@ + error
}

/// The text of a read, or the reason it failed.
pub open spec fn read_view(r: Result<String, String>) -> Result<Seq<char>, Seq<char>> {
    match r {
        Ok(t) => Ok(t@),
        Err(e) => Err(e@),
    }
}

/// The keys of the key files, read in order; the first unreadable file refuses.
pub open spec fn file_keys(files: Seq<Seq<char>>, texts: Seq<Result<Seq<char>, Seq<char>>>) -> Result<
    Seq<Seq<char>>,
    Seq<char>,
>
    decreases files.len(),
{
    if files.len() == 0 {
        Ok(Seq::empty())
    } else {
        match file_keys(files.drop_last(), texts.drop_last()) {
            Err(m) => Err(m),
            Ok(keys) => match texts.last() {
                Err(e) => Err(unreadable_key_message(files.last(), e)),
                Ok(t) => Ok(keys + text_keys(t)),
            },
        }
    }
}

/// All authorized keys of a build: the literal keys, then those of the files.
pub open spec fn keys_outcome(c: InstallerBuildCommand, f: InstallerFacts) -> Result<
    Seq<Seq<char>>,
    Seq<char>,
> {
    match file_keys(
        c.authorized_key_files.deep_view(),
        f.authorized_key_file_texts@.map_values(|r: Result<String, String>| read_view(r)),
    ) {
        Err(m) => Err(m),
        Ok(keys) => Ok(c.authorized_keys.deep_view() + keys),
    }
}

/// Collects the authorized keys of a build.
pub fn read_authorized_keys(command: &InstallerBuildCommand, facts: &InstallerFacts) -> (res: Result<
    Vec<String>,
    AppError,
>)
    requires
        facts.authorized_key_file_texts@.len() == command.authorized_key_files@.len(),
    ensures
        match res {
            Ok(keys) => keys_outcome(*command, *facts) == Ok::<Seq<Seq<char>>, Seq<char>>(
                keys.deep_view(),
            ),
            Err(e) => keys_outcome(*command, *facts) == Err::<Seq<Seq<char>>, Seq<char>>(
                e.text(),
            ),
        },
{
    let mut keys = copy_strings(&command.authorized_keys);
    let ghost files = command.authorized_key_files.deep_view();
    let ghost texts = facts.authorized_key_file_texts@.map_values(
        |r: Result<String, String>| read_view(r),
    );
    let mut i: usize = 0;
    assert(files.take(0) =~= Seq::<Seq<char>>::empty());
    while i < command.authorized_key_files.len()
        invariant
            files == command.authorized_key_files.deep_view(),
            texts == facts.authorized_key_file_texts@.map_values(
                |r: Result<String, String>| read_view(r),
            ),
            texts.len() == files.len(),
            0 <= i <= files.len(),
            file_keys(files.take(i as int), texts.take(i as int)) matches Ok(ks) && keys.deep_view()
                == command.authorized_keys.deep_view() + ks,
        decreases files.len() - i,
    {
        let ghost ks = file_keys(files.take(i as int), texts.take(i as int))->Ok_0;
        assert(files.take(i + 1).drop_last() =~= files.take(i as int));
        assert(texts.take(i + 1).drop_last() =~= texts.take(i as int));
        match &facts.authorized_key_file_texts[i] {
            Err(error) => {
                let mut m = owned("could not read authorized key file ");
                m.append(command.authorized_key_files[i].as_str());
                m.append(": ");
                m.append(error.as_str());
                proof {
                    lemma_file_keys_stops(files, texts, i as int + 1);
                }
                return Err(AppError::Message(m));
            },
            Ok(text) => {
                let ghost before = keys.deep_view();
                push_text_keys(&mut keys, text.as_str());
                assert(keys.deep_view() =~= command.authorized_keys.deep_view() + (ks + text_keys(
                    text@,
                )));
            },
        }
        i += 1;
    }
    assert(files.take(files.len() as int) =~= files);
    assert(texts.take(files.len() as int) =~= texts);
    Ok(keys)
}

/// Once a prefix of the files refuses, so do all longer prefixes.
proof fn lemma_file_keys_stops(
    files: Seq<Seq<char>>,
    texts: Seq<Result<Seq<char>, Seq<char>>>,
    n: int,
)
    requires
        0 < n <= files.len(),
        texts.len() == files.len(),
        file_keys(files.take(n), texts.take(n)) is Err,
    ensures
        file_keys(files, texts) == file_keys(files.take(n), texts.take(n)),
    decreases files.len() - n,
{
    if n == files.len() {
        assert(files.take(n) =~= files);
        assert(texts.take(n) =~= texts);
    } else {
        assert(files.take(n + 1).drop_last() =~= files.take(n));
        assert(texts.take(n + 1).drop_last() =~= texts.take(n));
        lemma_file_keys_stops(files, texts, n + 1);
    }
}

// ---------------------------------------------------------------------------
// The installer expression and build plan
// ---------------------------------------------------------------------------

/// The Nix value of the NetworkManager profiles: the JSON file read at build
/// time, or an empty attribute set.
pub open spec fn profiles_expr(path: Option<Seq<char>>) -> Seq<char> {
    match path {
        Some(p) => "builtins.fromJSON (builtins.readFile "@ + nix_quoted(p) + ")"@,
        None => "{ }"@,
    }
}

/// The NetworkManager profiles of the installer.
pub fn installer_network_manager_profiles(command: &InstallerBuildCommand) -> (res: String)
    ensures
        res@ == profiles_expr(command.network_manager_profiles_json.deep_view()),
{
    match &command.network_manager_profiles_json {
        Some(path) => {
            let mut s = owned("builtins.fromJSON (builtins.readFile ");
            s.append(nix_string(path.as_str()).as_str());
            s.append(")");
            s
        },
        None => owned("{ }"),
    }
}

/// The Nix expression of the installer tree.
pub open spec fn installer_expr(c: InstallerBuildCommand, keys: Seq<Seq<char>>) -> Seq<char> {
    "let\n  nixosKexec = builtins.getFlake "@ + nix_quoted(c.nixos_kexec_flake@)
        + ";\n  nixpkgs = builtins.getFlake "@ + nix_quoted(c.nixpkgs_flake@)
        + ";\n  disk-nix = builtins.getFlake "@ + nix_quoted(c.disk_nix_flake@)
        + ";\n  installer = import (nixosKexec + \"/examples/kexec-installer.nix\") {\n    inherit disk-nix nixpkgs;\n    authorizedKeys = "@
        + nix_list_of(keys) + ";\n    networkManagerProfiles = "@ + profiles_expr(
        c.network_manager_profiles_json.deep_view(),
    ) + ";\n    system = "@ + nix_quoted(c.system@)
        + ";\n  };\nin\ninstaller.config.system.build.kexecTree"@
}

/// Writes the installer expression.
pub fn installer_expression(command: &InstallerBuildCommand, authorized_keys: &Vec<String>) -> (res:
    String)
    ensures
        res@ == installer_expr(*command, authorized_keys.deep_view()),
{
    let mut e = owned("let\n  nixosKexec = builtins.getFlake ");
    e.append(nix_string(command.nixos_kexec_flake.as_str()).as_str());
    e.append(";\n  nixpkgs = builtins.getFlake ");
    e.append(nix_string(command.nixpkgs_flake.as_str()).as_str());
    e.append(";\n  disk-nix = builtins.getFlake ");
    e.append(nix_string(command.disk_nix_flake.as_str()).as_str());
    e.append(
        ";\n  installer = import (nixosKexec + \"/examples/kexec-installer.nix\") {\n    inherit disk-nix nixpkgs;\n    authorizedKeys = ",
    );
    e.append(nix_list(authorized_keys).as_str());
    e.append(";\n    networkManagerProfiles = ");
    e.append(installer_network_manager_profiles(command).as_str());
    e.append(";\n    system = ");
    e.append(nix_string(command.system.as_str()).as_str());
    e.append(";\n  };\nin\ninstaller.config.system.build.kexecTree");
    e
}

/// The `nix build` argv of the installer tree.
pub open spec fn installer_argv(c: InstallerBuildCommand, expr: Seq<char>) -> Seq<Seq<char>> {
    seq!["nix"@, "build"@, "--impure"@, "--expr"@, expr] + match c.out_link {
        Some(o) => seq!["--out-link"@, o@],
        None => Seq::empty(),
    }
}

/// The warnings of an installer build.
pub open spec fn installer_warnings() -> Seq<Seq<char>> {
    seq![
        "installer builds are local; pass the current SSH target only to plan/script/run"@,
        "review authorized keys and any NetworkManager profile embedded in the installer tree"@,
    ]
}

/// What planning an installer build gives: the first refusal, else the plan.
pub open spec fn installer_outcome(c: InstallerBuildCommand, f: InstallerFacts) -> Result<
    InstallerPlanModel,
    Seq<char>,
> {
    match keys_outcome(c, f) {
        Err(m) => Err(m),
        Ok(keys) => if keys.len() == 0 {
            Err("installer tree requires at least one --authorized-key-file or --authorized-key"@)
        } else if trim(c.system@).len() == 0 {
            Err("installer system cannot be empty"@)
        } else if c.network_manager_profiles_json is Some && !is_file(
            f.probes@,
            c.network_manager_profiles_json.deep_view().unwrap(),
        ) {
            Err(
                missing_file_message(
                    "NetworkManager profiles JSON"@,
                    c.network_manager_profiles_json.deep_view().unwrap(),
                ),
            )
        } else {
            Ok(
                InstallerPlanModel {
                    system: c.system@,
                    nixos_kexec_flake: c.nixos_kexec_flake@,
                    disk_nix_flake: c.disk_nix_flake@,
                    nixpkgs_flake: c.nixpkgs_flake@,
                    authorized_key_count: keys.len(),
                    network_manager_profiles_json: c.network_manager_profiles_json.deep_view(),
                    out_link: c.out_link.deep_view(),
                    argv: installer_argv(c, installer_expr(c, keys)),
                    expression: installer_expr(c, keys),
                    warnings: installer_warnings(),
                },
            )
        },
    }
}

/// Builds the reviewable `nix build` of the installer tree.
pub fn build_installer_plan(command: &InstallerBuildCommand, facts: &InstallerFacts) -> (res: Result<
    InstallerBuildPlan,
    AppError,
>)
    requires
        facts.authorized_key_file_texts@.len() == command.authorized_key_files@.len(),
    ensures
        crate::model::outcome(res) == installer_outcome(*command, *facts),
{
    let authorized_keys = match read_authorized_keys(command, facts) {
        Ok(k) => k,
        Err(e) => {
            return Err(e);
        },
    };
    if authorized_keys.len() == 0 {
        return Err(
            AppError::Message(
                owned(
                    "installer tree requires at least one --authorized-key-file or --authorized-key",
                ),
            ),
        );
    }
    if trim_str(command.system.as_str()).as_str().is_empty() {
        return Err(AppError::Message(owned("installer system cannot be empty")));
    }
    if let Some(path) = &command.network_manager_profiles_json {
        match require_file("NetworkManager profiles JSON", path.as_str(), &facts.probes) {
            Ok(()) => {},
            Err(e) => {
                return Err(e);
            },
        }
    }
    let expression = installer_expression(command, &authorized_keys);
    let mut argv: Vec<String> = Vec::new();
    argv.push(owned("nix"));
    argv.push(owned("build"));
    argv.push(owned("--impure"));
    argv.push(owned("--expr"));
    argv.push(owned(expression.as_str()));
    if let Some(out_link) = &command.out_link {
        argv.push(owned("--out-link"));
        argv.push(owned(out_link.as_str()));
    }
    assert(argv.deep_view() =~= installer_argv(*command, expression@));
    let mut warnings: Vec<String> = Vec::new();
    warnings.push(
        owned("installer builds are local; pass the current SSH target only to plan/script/run"),
    );
    warnings.push(
        owned(
            "review authorized keys and any NetworkManager profile embedded in the installer tree",
        ),
    );
    assert(warnings.deep_view() =~= installer_warnings());
    Ok(
        InstallerBuildPlan {
            system: owned(command.system.as_str()),
            nixos_kexec_flake: owned(command.nixos_kexec_flake.as_str()),
            disk_nix_flake: owned(command.disk_nix_flake.as_str()),
            nixpkgs_flake: owned(command.nixpkgs_flake.as_str()),
            authorized_key_count: authorized_keys.len(),
            network_manager_profiles_json: copy_opt(&command.network_manager_profiles_json),
            out_link: copy_opt(&command.out_link),
            argv: argv,
            expression: expression,
            warnings: warnings,
        },
    )
}

} // verus!
