//! The error taxonomy of the harness: configuration errors, build errors and
//! execution-infrastructure errors. A status mismatch between a run and its
//! fixture is never an error; it is a recorded failed test.

use vstd::prelude::*;
use crate::text::{dec_rep, u64_to_dec};

verus! {

/// An error of the harness. Configuration errors arise before any build or
/// run; build errors abort setup; the remaining variants are execution
/// infrastructure errors that abort the run stage.
#[derive(Debug, PartialEq, Eq)]
pub enum Error {
    /// A backend identifier supplied by the caller names no known platform.
    UnknownPlatformKind { name: String },
    /// A program identifier supplied by the caller names no known program.
    UnknownProgramKind { name: String },
    /// The fixture name filter is not a valid glob pattern.
    InvalidGlob { pattern: String },
    /// A build step holds no tokens at all.
    EmptyCommand,
    /// An artifact was requested from a component that was never built.
    ComponentNotBuilt { component: String },
    /// An artifact name is absent from a component's artifact map.
    UnknownArtifact { name: String },
    /// A build step of a component failed; `step` is its position in the
    /// component's ordered step list.
    BuildFailed { component: String, step: usize },
    /// Unpacking a fixture's compressed artifacts failed; `step` is the
    /// position of the failing command in the decompression plan.
    DecompressFailed { dir: String, step: usize },
    /// Deleting a fixture's decompressed artifacts failed.
    CleanupFailed { dir: String },
    /// A platform that needs an external binary was resolved without one.
    MissingVmBinary,
    /// A host command with no program at all was handed to a platform.
    MissingHostBinary,
    /// A host command was executed without an exit code (e.g. the process
    /// was terminated by a signal).
    MissingExitCode,
    /// A deterministic VM reported that the guest program never exited.
    DidNotExit,
    /// A program image could not be loaded into a platform's state format.
    LoadFailed { program: String },
    /// A deterministic VM left no readable record of the guest's outcome.
    VmOutputUnreadable,
    /// The requested platform or program is reserved but not implemented.
    NotImplemented,
    /// A child process could not be spawned at all.
    SpawnFailed { program: String },
}

impl Error {
    /// A human-readable description of the error.
    pub fn message(&self) -> (r: String)
        ensures
            r@ == self.message_spec(),
    {
        match self {
            Error::UnknownPlatformKind { name } => {
                let mut s = String::from_str("unknown platform kind: ");
                s.append(name.as_str());
                s
            },
            Error::UnknownProgramKind { name } => {
                let mut s = String::from_str("unknown program kind: ");
                s.append(name.as_str());
                s
            },
            Error::InvalidGlob { pattern } => {
                let mut s = String::from_str("invalid test name pattern: ");
                s.append(pattern.as_str());
                s
            },
            Error::EmptyCommand => String::from_str("build step holds no command"),
            Error::ComponentNotBuilt { component } => {
                let mut s = String::from_str("component was never built: ");
                s.append(component.as_str());
                s
            },
            Error::UnknownArtifact { name } => {
                let mut s = String::from_str("no artifact named: ");
                s.append(name.as_str());
                s
            },
            Error::BuildFailed { component, step } => {
                let mut s = String::from_str("failed to build component ");
                s.append(component.as_str());
                s.append(" at step ");
                let d = u64_to_dec(*step as u64);
                s.append(d.as_str());
                s
            },
            Error::DecompressFailed { dir, step } => {
                let mut s = String::from_str("failed to decompress fixture at ");
                s.append(dir.as_str());
                s.append(" at step ");
                let d = u64_to_dec(*step as u64);
                s.append(d.as_str());
                s
            },
            Error::CleanupFailed { dir } => {
                let mut s = String::from_str("failed to clean up fixture at ");
                s.append(dir.as_str());
                s
            },
            Error::MissingVmBinary => String::from_str("missing virtual machine binary"),
            Error::MissingHostBinary => String::from_str("missing host binary"),
            Error::MissingExitCode => String::from_str("host command exited without a status code"),
            Error::DidNotExit => String::from_str("guest program did not exit"),
            Error::LoadFailed { program } => {
                let mut s = String::from_str("failed to load program image: ");
                s.append(program.as_str());
                s
            },
            Error::VmOutputUnreadable => String::from_str(
                "virtual machine left no readable outcome",
            ),
            Error::NotImplemented => String::from_str("platform or program is not implemented"),
            Error::SpawnFailed { program } => {
                let mut s = String::from_str("failed to spawn: ");
                s.append(program.as_str());
                s
            },
        }
    }

    /// The description, in spec form.
    pub open spec fn message_spec(&self) -> Seq<char> {
        match self {
            Error::UnknownPlatformKind { name } => "unknown platform kind: "@ + name@,
            Error::UnknownProgramKind { name } => "unknown program kind: "@ + name@,
            Error::InvalidGlob { pattern } => "invalid test name pattern: "@ + pattern@,
            Error::EmptyCommand => "build step holds no command"@,
            Error::ComponentNotBuilt { component } => "component was never built: "@ + component@,
            Error::UnknownArtifact { name } => "no artifact named: "@ + name@,
            Error::BuildFailed { component, step } => "failed to build component "@ + component@
                + " at step "@ + dec_rep(*step as nat),
            Error::DecompressFailed { dir, step } => "failed to decompress fixture at "@ + dir@
                + " at step "@ + dec_rep(*step as nat),
            Error::CleanupFailed { dir } => "failed to clean up fixture at "@ + dir@,
            Error::MissingVmBinary => "missing virtual machine binary"@,
            Error::MissingHostBinary => "missing host binary"@,
            Error::MissingExitCode => "host command exited without a status code"@,
            Error::DidNotExit => "guest program did not exit"@,
            Error::LoadFailed { program } => "failed to load program image: "@ + program@,
            Error::VmOutputUnreadable => "virtual machine left no readable outcome"@,
            Error::NotImplemented => "platform or program is not implemented"@,
            Error::SpawnFailed { program } => "failed to spawn: "@ + program@,
        }
    }
}

} // verus!
