//! The data of the library: commands given on the command line, what the
//! local machine reports about the files they name, and the plans built
//! from them, each with its mathematical view.
use vstd::prelude::*;

verus! {

/// A step of the deployment workflow.
#[derive(Debug, Clone, Copy, PartialEq, Eq, Structural)]
pub enum Phase {
    Preflight,
    StageKexec,
    Kexec,
    AwaitInstaller,
    StageInstall,
    DiskNixApply,
    CopySystem,
    StageHostIdentity,
    NixosInstall,
    Reboot,
}

/// Where the installed system closure comes from.
#[derive(Debug, Clone, Copy, PartialEq, Eq, Structural)]
pub enum InstallStrategy {
    InstallerBuildsFlake,
    StageLocalFlake,
    CopyPrebuiltSystem,
}

/// One command of a deployment plan.
#[derive(Debug, Clone, PartialEq, Eq)]
pub struct PlanCommand {
    pub phase: Phase,
    pub argv: Vec<String>,
    pub description: String,
    pub mutates: bool,
}

/// The view of a [`PlanCommand`].
pub struct CommandModel {
    pub phase: Phase,
    pub argv: Seq<Seq<char>>,
    pub description: Seq<char>,
    pub mutates: bool,
}

impl View for PlanCommand {
    type V = CommandModel;

    open spec fn view(&self) -> CommandModel {
        CommandModel {
            phase: self.phase,
            argv: self.argv.deep_view(),
            description: self.description@,
            mutates: self.mutates,
        }
    }
}

impl DeepView for PlanCommand {
    type V = CommandModel;

    open spec fn deep_view(&self) -> CommandModel {
        self.view()
    }
}

/// A reviewable SSH kexec deployment.
#[derive(Debug, Clone, PartialEq, Eq)]
pub struct DeploymentPlan {
    pub target: String,
    pub flake: String,
    pub install_flake: String,
    pub install_strategy: InstallStrategy,
    pub install_strategy_summary: String,
    pub flake_source: Option<String>,
    pub installer_known_hosts_files: Vec<String>,
    pub system: Option<String>,
    pub disk_spec: String,
    pub disk_nix: String,
    pub disk_nix_command: Option<String>,
    pub host_key: Option<String>,
    pub host_key_public: Option<String>,
    pub generate_host_key: bool,
    pub identity_hook: Option<String>,
    pub identity_rollback_hook: Option<String>,
    pub identity_host: Option<String>,
    pub ssh_tty: bool,
    pub target_root: String,
    pub remote_workdir: String,
    pub commands: Vec<PlanCommand>,
    pub warnings: Vec<String>,
}

/// The view of a [`DeploymentPlan`].
pub struct PlanModel {
    pub target: Seq<char>,
    pub flake: Seq<char>,
    pub install_flake: Seq<char>,
    pub install_strategy: InstallStrategy,
    pub install_strategy_summary: Seq<char>,
    pub flake_source: Option<Seq<char>>,
    pub installer_known_hosts_files: Seq<Seq<char>>,
    pub system: Option<Seq<char>>,
    pub disk_spec: Seq<char>,
    pub disk_nix: Seq<char>,
    pub disk_nix_command: Option<Seq<char>>,
    pub host_key: Option<Seq<char>>,
    pub host_key_public: Option<Seq<char>>,
    pub generate_host_key: bool,
    pub identity_hook: Option<Seq<char>>,
    pub identity_rollback_hook: Option<Seq<char>>,
    pub identity_host: Option<Seq<char>>,
    pub ssh_tty: bool,
    pub target_root: Seq<char>,
    pub remote_workdir: Seq<char>,
    pub commands: Seq<CommandModel>,
    pub warnings: Seq<Seq<char>>,
}

impl View for DeploymentPlan {
    type V = PlanModel;

    open spec fn view(&self) -> PlanModel {
        PlanModel {
            target: self.target@,
            flake: self.flake@,
            install_flake: self.install_flake@,
            install_strategy: self.install_strategy,
            install_strategy_summary: self.install_strategy_summary@,
            flake_source: self.flake_source.deep_view(),
            installer_known_hosts_files: self.installer_known_hosts_files.deep_view(),
            system: self.system.deep_view(),
            disk_spec: self.disk_spec@,
            disk_nix: self.disk_nix@,
            disk_nix_command: self.disk_nix_command.deep_view(),
            host_key: self.host_key.deep_view(),
            host_key_public: self.host_key_public.deep_view(),
            generate_host_key: self.generate_host_key,
            identity_hook: self.identity_hook.deep_view(),
            identity_rollback_hook: self.identity_rollback_hook.deep_view(),
            identity_host: self.identity_host.deep_view(),
            ssh_tty: self.ssh_tty,
            target_root: self.target_root@,
            remote_workdir: self.remote_workdir@,
            commands: self.commands.deep_view(),
            warnings: self.warnings.deep_view(),
        }
    }
}

/// A reviewable `nix build` of the kexec installer tree.
#[derive(Debug, Clone, PartialEq, Eq)]
pub struct InstallerBuildPlan {
    pub system: String,
    pub nixos_kexec_flake: String,
    pub disk_nix_flake: String,
    pub nixpkgs_flake: String,
    pub authorized_key_count: usize,
    pub network_manager_profiles_json: Option<String>,
    pub out_link: Option<String>,
    pub argv: Vec<String>,
    pub expression: String,
    pub warnings: Vec<String>,
}

/// The view of an [`InstallerBuildPlan`].
pub struct InstallerPlanModel {
    pub system: Seq<char>,
    pub nixos_kexec_flake: Seq<char>,
    pub disk_nix_flake: Seq<char>,
    pub nixpkgs_flake: Seq<char>,
    pub authorized_key_count: nat,
    pub network_manager_profiles_json: Option<Seq<char>>,
    pub out_link: Option<Seq<char>>,
    pub argv: Seq<Seq<char>>,
    pub expression: Seq<char>,
    pub warnings: Seq<Seq<char>>,
}

impl View for InstallerBuildPlan {
    type V = InstallerPlanModel;

    open spec fn view(&self) -> InstallerPlanModel {
        InstallerPlanModel {
            system: self.system@,
            nixos_kexec_flake: self.nixos_kexec_flake@,
            disk_nix_flake: self.disk_nix_flake@,
            nixpkgs_flake: self.nixpkgs_flake@,
            authorized_key_count: self.authorized_key_count as nat,
            network_manager_profiles_json: self.network_manager_profiles_json.deep_view(),
            out_link: self.out_link.deep_view(),
            argv: self.argv.deep_view(),
            expression: self.expression@,
            warnings: self.warnings.deep_view(),
        }
    }
}

/// Options of an SSH deployment (`plan`, `script` and `run`). Local paths
/// are held as the strings the operator gave.
#[derive(Debug, Clone)]
pub struct SshCommand {
    /// SSH target such as root@192.0.2.10.
    pub target: String,
    /// NixOS flake installable such as github:you/flake#host.
    pub flake: String,
    /// Local flake directory to upload into the installer before nixos-install.
    pub flake_source: Option<String>,
    /// SSH known_hosts files to install inside the kexec installer before flake evaluation.
    pub installer_known_hosts_files: Vec<String>,
    /// Prebuilt NixOS system closure to copy into the target and install.
    pub system: Option<String>,
    /// disk-nix install spec to upload and apply.
    pub disk_spec: String,
    /// Kernel file to upload and load with kexec.
    pub kexec_kernel: String,
    /// Initrd file to upload and load with kexec.
    pub kexec_initrd: String,
    /// Kernel command line for the kexec installer environment.
    pub kexec_append: Option<String>,
    /// disk-nix flake app used inside the installer environment.
    pub disk_nix: String,
    /// Preinstalled disk-nix-compatible command to run instead of `nix run`.
    pub disk_nix_command: Option<String>,
    /// Local private SSH host key to install into the target before nixos-install.
    pub host_key: Option<String>,
    /// Local public SSH host key to install next to the host key.
    pub host_key_public: Option<String>,
    /// Generate a temporary Ed25519 SSH host key and install it into the target.
    pub generate_host_key: bool,
    /// Shell command to run after host identity material is available locally.
    pub identity_hook: Option<String>,
    /// Shell command to run if deployment fails after the identity hook starts.
    pub identity_rollback_hook: Option<String>,
    /// Logical host name passed to the identity hook.
    pub identity_host: Option<String>,
    /// Mount target passed to disk-nix install nixos.
    pub target_root: String,
    /// Remote temporary work directory.
    pub remote_workdir: String,
    /// Extra options passed to ssh and scp.
    pub ssh_options: Vec<String>,
    /// Allocate a TTY for mutating remote SSH commands that may prompt.
    pub ssh_tty: bool,
    /// Write the rendered script to this path.
    pub script_out: Option<String>,
    /// Emit JSON instead of human-readable output.
    pub json: bool,
    /// Stop after the disk-nix install handoff instead of rebooting.
    pub no_final_reboot: bool,
}

/// Options of `run`: an SSH deployment and the consent to execute it.
#[derive(Debug, Clone)]
pub struct SshRunCommand {
    pub ssh: SshCommand,
    /// Actually run the generated local orchestration script.
    pub execute: bool,
}

/// Options of the installer tree build.
#[derive(Debug, Clone)]
pub struct InstallerBuildCommand {
    /// SSH authorized_keys public key files.
    pub authorized_key_files: Vec<String>,
    /// Literal SSH public keys.
    pub authorized_keys: Vec<String>,
    /// JSON file containing NetworkManager profiles for the installer tree.
    pub network_manager_profiles_json: Option<String>,
    /// Target system for the installer tree.
    pub system: String,
    /// Flake containing examples/kexec-installer.nix.
    pub nixos_kexec_flake: String,
    /// disk-nix flake used by the installer tree.
    pub disk_nix_flake: String,
    /// nixpkgs flake used by the installer tree.
    pub nixpkgs_flake: String,
    /// Create or update this result symlink.
    pub out_link: Option<String>,
    /// Emit JSON instead of human-readable output.
    pub json: bool,
}

/// Options of `installer build`: a build and the consent to run it.
#[derive(Debug, Clone)]
pub struct InstallerRunCommand {
    pub build: InstallerBuildCommand,
    /// Actually run the generated Nix build command.
    pub execute: bool,
}

/// What to do with the installer tree.
#[derive(Debug, Clone)]
pub enum InstallerAction {
    /// Render the Nix build command for the installer tree.
    Plan(InstallerBuildCommand),
    /// Build the installer tree; refused without consent to execute.
    Build(InstallerRunCommand),
}

/// The `installer` subcommand.
#[derive(Debug, Clone)]
pub struct InstallerCommand {
    pub action: InstallerAction,
}

/// A refusal, with the message shown to the operator.
#[derive(Debug, Clone, PartialEq, Eq)]
pub enum AppError {
    Message(String),
}

impl AppError {
    /// The message of the error.
    pub open spec fn text(self) -> Seq<char> {
        match self {
            AppError::Message(m) => m@,
        }
    }

    /// The message of the error, as shown to the operator.
    pub fn to_string(&self) -> (res: String)
        ensures
            res@ == self.text(),
    {
        match self {
            AppError::Message(m) => m.clone(),
        }
    }
}

/// A result of the library, with its error taken by its message.
pub open spec fn outcome<T: View>(r: Result<T, AppError>) -> Result<T::V, Seq<char>> {
    match r {
        Ok(v) => Ok(v@),
        Err(e) => Err(e.text()),
    }
}

/// What the local machine reports about one path.
#[derive(Debug, Clone)]
pub struct PathProbe {
    pub path: String,
    /// The path names a regular file (following symbolic links).
    pub is_file: bool,
    /// The path names a directory (following symbolic links).
    pub is_dir: bool,
    /// The path names anything at all.
    pub exists: bool,
}

/// The `kexec-boot` script next to the kexec kernel, as far as it could be read.
#[derive(Debug, Clone)]
pub enum KexecBootSource {
    /// The kernel path has no parent directory.
    NoParent,
    /// The script at this path could not be read, for this reason.
    Unreadable(String, String),
    /// The script at this path, with its text.
    Script(String, String),
}

/// What the local machine reports for an SSH deployment. A path for which
/// no probe is listed does not exist.
#[derive(Debug, Clone)]
pub struct LocalFacts {
    pub probes: Vec<PathProbe>,
    pub kexec_boot: KexecBootSource,
}

/// What the local machine reports for an installer build: the probes of its
/// paths and, for each authorized key file in order, its text or the reason
/// it could not be read.
#[derive(Debug, Clone)]
pub struct InstallerFacts {
    pub probes: Vec<PathProbe>,
    pub authorized_key_file_texts: Vec<Result<String, String>>,
}

} // verus!
