//! Planning and rendering of kexec-based NixOS deployments: the checks on
//! the operator's options, the ordered SSH, scp and local commands of the
//! workflow, the reviewable orchestration script, and the `nix build` of
//! the kexec installer tree.
pub mod commands;
pub mod consent;
pub mod facts;
pub mod identity;
pub mod installer;
pub mod kexec;
pub mod laws;
pub mod model;
pub mod plan;
pub mod quote;
pub mod readback;
pub mod render;
pub mod render_laws;
pub mod staging;
pub mod text;
pub mod tty_text;

pub use consent::{installer_build_plan, run_script};
pub use facts::probe_paths;
pub use installer::build_installer_plan;
pub use model::{
    AppError, DeploymentPlan, InstallStrategy, InstallerAction, InstallerBuildCommand,
    InstallerBuildPlan, InstallerCommand, InstallerFacts, InstallerRunCommand, KexecBootSource,
    LocalFacts, PathProbe, Phase, PlanCommand, SshCommand, SshRunCommand,
};
pub use plan::build_plan;
pub use quote::{nix_string, shell_quote};
pub use render::{installer_plan_text, plan_text, render_script};
