//! Deployment to a VM: the configuration, the order of the steps, the
//! commands run remotely and how their output is judged.

use vstd::prelude::*;
use vstd::string::StringExecFns;
use crate::deploy::vm::VmInfo;
use crate::text::{concat2, concat3, contains_str, join, join_path, seq_contains};

verus! {

/// Where the project is and what is run to build and install it.
#[derive(Debug)]
pub struct DeploymentConfig {
    /// Local project directory.
    pub source_dir: String,
    /// Directory on the VM.
    pub target_dir: String,
    /// Command that builds the project.
    pub build_command: String,
    /// Command that installs the portal.
    pub install_command: String,
}

/// The directory on the VM that receives the project.
pub open spec fn default_target_dir() -> Seq<char> {
    "~/ionChannel"@
}

/// The command that builds the project.
pub open spec fn default_build_command() -> Seq<char> {
    "cargo build --release --all"@
}

/// The command that installs the portal binary.
pub open spec fn default_install_command() -> Seq<char> {
    "sudo cp target/release/xdg-desktop-portal-cosmic /usr/libexec/"@
}

impl DeploymentConfig {
    /// The configuration for the project in `source_dir` (the directory
    /// deployment was started from).
    pub fn for_source_dir(source_dir: &str) -> (r: DeploymentConfig)
        ensures
            r.source_dir@ == source_dir@,
            r.target_dir@ == default_target_dir(),
            r.build_command@ == default_build_command(),
            r.install_command@ == default_install_command(),
    {
        DeploymentConfig {
            source_dir: String::from_str(source_dir),
            target_dir: String::from_str("~/ionChannel"),
            build_command: String::from_str("cargo build --release --all"),
            install_command: String::from_str(
                "sudo cp target/release/xdg-desktop-portal-cosmic /usr/libexec/",
            ),
        }
    }
}

/// The user to log in as on `vm`: its own, else `ubuntu`.
pub fn login_user(vm: &VmInfo) -> (r: String)
    ensures
        r@ == (match vm.username {
            Some(u) => u@,
            None => "ubuntu"@,
        }),
{
    match &vm.username {
        Some(u) => u.clone(),
        None => String::from_str("ubuntu"),
    }
}

/// The command that creates `dir` and its parents.
pub fn make_dir_command(dir: &str) -> (r: String)
    ensures
        r@ == "mkdir -p "@ + dir@,
{
    concat2("mkdir -p ", dir)
}

/// The command that runs `command` inside `dir`.
pub fn in_dir_command(dir: &str, command: &str) -> (r: String)
    ensures
        r@ == "cd "@ + dir@ + " && "@ + command@,
{
    let mut s = concat3("cd ", dir, " && ");
    s.append(command);
    s
}

/// The command that builds the project on the VM.
pub fn remote_build_command(config: &DeploymentConfig) -> (r: String)
    ensures
        r@ == "cd "@ + config.target_dir@ + " && "@ + config.build_command@,
{
    in_dir_command(config.target_dir.as_str(), config.build_command.as_str())
}

/// The command that installs the portal on the VM.
pub fn remote_install_command(config: &DeploymentConfig) -> (r: String)
    ensures
        r@ == "cd "@ + config.target_dir@ + " && "@ + config.install_command@,
{
    in_dir_command(config.target_dir.as_str(), config.install_command.as_str())
}

/// The command that lists the installed portal binary.
pub fn verify_command() -> (r: &'static str)
    ensures
        r@ == "ls -lh /usr/libexec/xdg-desktop-portal-cosmic"@,
{
    "ls -lh /usr/libexec/xdg-desktop-portal-cosmic"
}

/// Whether build output reports a failure: it mentions `error` or `failed`.
pub open spec fn build_failed(output: Seq<char>) -> bool {
    seq_contains(output, "error"@) || seq_contains(output, "failed"@)
}

/// Whether the listing of the portal binary shows it missing.
pub open spec fn portal_missing(output: Seq<char>) -> bool {
    seq_contains(output, "No such file"@)
}

/// Why a deployment stopped.
#[derive(Debug)]
pub enum DeployError {
    /// The build reported a failure; its output.
    BuildFailed(String),
    /// The portal binary was not found after installing.
    PortalMissing,
}

impl DeployError {
    /// The message that describes the error.
    pub fn message(&self) -> (r: String)
        ensures
            r@ == (match self {
                DeployError::BuildFailed(out) => "Build failed:\n"@ + out@,
                DeployError::PortalMissing => "Portal binary not found after deployment"@,
            }),
    {
        match self {
            DeployError::BuildFailed(out) => concat2("Build failed:\n", out.as_str()),
            DeployError::PortalMissing => String::from_str(
                "Portal binary not found after deployment",
            ),
        }
    }
}

/// Judges the output of the build: an error exactly when it reports a
/// failure.
pub fn check_build_output(output: &str) -> (r: Result<(), DeployError>)
    ensures
        r is Ok <==> !build_failed(output@),
        r matches Err(DeployError::BuildFailed(o)) ==> o@ == output@,
{
    if contains_str(output, "error") || contains_str(output, "failed") {
        Err(DeployError::BuildFailed(String::from_str(output)))
    } else {
        Ok(())
    }
}

/// Judges the listing of the installed portal binary: an error exactly
/// when it shows the binary missing.
pub fn check_verification_output(output: &str) -> (r: Result<(), DeployError>)
    ensures
        r is Ok <==> !portal_missing(output@),
        r is Err ==> r matches Err(DeployError::PortalMissing),
{
    if contains_str(output, "No such file") {
        Err(DeployError::PortalMissing)
    } else {
        Ok(())
    }
}

/// A file to copy: its local path and its path relative to the project.
pub struct FileTransfer {
    /// Path on this machine.
    pub local_path: String,
    /// Path relative to the project directory.
    pub relative_path: String,
}

/// The workspace files that are copied, from what exists in the project
/// directory: `Cargo.toml`, then `Cargo.lock`, each when present.
pub fn files_to_transfer(source_dir: &str, has_cargo_toml: bool, has_cargo_lock: bool) -> (r: Vec<
    FileTransfer,
>)
    ensures
        r@.len() == (if has_cargo_toml { 1int } else { 0 }) + (if has_cargo_lock { 1int } else { 0 }),
        has_cargo_toml ==> r@[0].relative_path@ == "Cargo.toml"@ && r@[0].local_path@
            == join_path(source_dir@, "Cargo.toml"@),
        has_cargo_lock ==> ({
            let k = if has_cargo_toml { 1int } else { 0 };
            r@[k].relative_path@ == "Cargo.lock"@ && r@[k].local_path@ == join_path(
                source_dir@,
                "Cargo.lock"@,
            )
        }),
{
    let mut files: Vec<FileTransfer> = Vec::new();
    if has_cargo_toml {
        files.push(
            FileTransfer {
                local_path: join(source_dir, "Cargo.toml"),
                relative_path: String::from_str("Cargo.toml"),
            },
        );
    }
    if has_cargo_lock {
        files.push(
            FileTransfer {
                local_path: join(source_dir, "Cargo.lock"),
                relative_path: String::from_str("Cargo.lock"),
            },
        );
    }
    files
}

/// Where a project file goes on the VM.
pub fn remote_file_path(target_dir: &str, relative_path: &str) -> (r: String)
    ensures
        r@ == target_dir@ + "/"@ + relative_path@,
{
    concat3(target_dir, "/", relative_path)
}

/// A step of a deployment.
#[derive(Debug, Clone, Copy, PartialEq, Eq, Structural)]
pub enum DeployStep {
    /// Copy the project files over SFTP.
    TransferFiles,
    /// Build on the VM.
    Build,
    /// Install the portal.
    InstallPortal,
    /// Check that the portal is installed.
    Verify,
}

/// The steps of a deployment, in order: the transfer when the server
/// offers SFTP, the build and the install unless skipped, and always the
/// final check.
pub open spec fn deploy_steps(supports_sftp: bool, skip_build: bool, skip_portal: bool) -> Seq<
    DeployStep,
> {
    (if supports_sftp { seq![DeployStep::TransferFiles] } else { Seq::empty() }) + (if !skip_build {
        seq![DeployStep::Build]
    } else {
        Seq::empty()
    }) + (if !skip_portal { seq![DeployStep::InstallPortal] } else { Seq::empty() }) + seq![
        DeployStep::Verify,
    ]
}

/// The steps of a deployment (see [`deploy_steps`]).
pub fn deployment_plan(supports_sftp: bool, skip_build: bool, skip_portal: bool) -> (r: Vec<
    DeployStep,
>)
    ensures
        r@ == deploy_steps(supports_sftp, skip_build, skip_portal),
{
    let mut steps: Vec<DeployStep> = Vec::new();
    if supports_sftp {
        steps.push(DeployStep::TransferFiles);
    }
    if !skip_build {
        steps.push(DeployStep::Build);
    }
    if !skip_portal {
        steps.push(DeployStep::InstallPortal);
    }
    steps.push(DeployStep::Verify);
    assert(steps@ =~= deploy_steps(supports_sftp, skip_build, skip_portal));
    steps
}

} // verus!
