# nixos-kexec

`nixos-kexec` deploys NixOS over SSH: it kexecs the target into a controlled
installer, applies a `disk-nix` storage spec there, and hands off to the NixOS
install. This crate plans that workflow and renders it as a reviewable shell
script; the planning logic is verified with Verus.

## Layout

- `src/` is the verified library.
  - `model.rs`: the commands of the CLI, what the local machine reports about
    the paths they name (`LocalFacts`, `InstallerFacts`), and the plans, each
    with its view.
  - `plan.rs`: the checks on the options and the assembly of a deployment
    plan; `plan_outcome` states what `build_plan` returns for every input.
  - `commands.rs`, `staging.rs`, `identity.rs`, `kexec.rs`: the SSH, scp and
    local commands of each step.
  - `installer.rs`: the `nix build` of the kexec installer tree.
  - `render.rs`: the orchestration script and the printed summaries.
  - `consent.rs`: `run` and `installer build` refuse without `--execute`.
  - `quote.rs`, `text.rs`: shell and Nix quoting, percent-encoding, and the
    string helpers they rest on.
  - `laws.rs`, `readback.rs`, `tty_text.rs`: properties of the library as a
    whole, proved: the order of the workflow, TTY allocation (also inside
    the SSH loops of the kexec and the wait), the install handoff, the
    strategy, and that quoting, encoding and the kexec-boot command line
    read back as what they hold.
- `app/` is the command-line program: argument parsing, the file-system
  probes that fill `LocalFacts`, JSON output, and running the script.
- `tests/` runs the library on concrete inputs.
