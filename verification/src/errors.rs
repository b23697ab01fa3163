//! The error taxonomy every operation reports through.

use vstd::prelude::*;
use vstd::string::*;

verus! {

/// Everything that can go wrong between the shell and the sidecar:
/// locating the executable, starting it, interpreting its exit, and
/// reading or writing the persisted local state.
#[derive(Debug, PartialEq, Eq)]
pub enum AppError {
    /// The locator exhausted every candidate path for this sidecar name.
    SidecarNotFound { name: String },
    /// The operating system could not start the resolved executable.
    SpawnFailed { reason: String },
    /// The process ran but exited with a non-success status, under a
    /// policy that treats that as failure; carries the captured stderr.
    SidecarExitedNonZero { stderr: String },
    /// Well-formed JSON was required and the given text is not.
    InvalidFormat,
    /// An operation needed saved credentials and none exist, and none
    /// were supplied by the caller.
    NoCredentials,
    /// A file-system read, write or directory creation failed.
    IoFailure { reason: String },
}

impl AppError {
    /// The human-readable message surfaced to the caller for this error.
    pub open spec fn spec_message(&self) -> Seq<char> {
        match self {
            AppError::SidecarNotFound { name } => "Sidecar not found: "@ + name@
                + " (checked resource and dev paths)"@,
            AppError::SpawnFailed { reason } => "Failed to execute sidecar: "@ + reason@,
            AppError::SidecarExitedNonZero { stderr } => "Sidecar failed: "@ + stderr@,
            AppError::InvalidFormat => "Invalid credentials file: contents are not well-formed JSON"@,
            AppError::NoCredentials => "No credentials found. Please save credentials first."@,
            AppError::IoFailure { reason } => "File system operation failed: "@ + reason@,
        }
    }

    /// Render the error as the message the caller sees.
    pub fn message(&self) -> (r: String)
        ensures
            r@ == self.spec_message(),
    {
        match self {
            AppError::SidecarNotFound { name } => {
                let mut m = String::from_str("Sidecar not found: ");
                m.append(name.as_str());
                m.append(" (checked resource and dev paths)");
                m
            },
            AppError::SpawnFailed { reason } => {
                let mut m = String::from_str("Failed to execute sidecar: ");
                m.append(reason.as_str());
                m
            },
            AppError::SidecarExitedNonZero { stderr } => {
                let mut m = String::from_str("Sidecar failed: ");
                m.append(stderr.as_str());
                m
            },
            AppError::InvalidFormat => String::from_str(
                "Invalid credentials file: contents are not well-formed JSON",
            ),
            AppError::NoCredentials => String::from_str(
                "No credentials found. Please save credentials first.",
            ),
            AppError::IoFailure { reason } => {
                let mut m = String::from_str("File system operation failed: ");
                m.append(reason.as_str());
                m
            },
        }
    }
}

/// A non-success exit surfaced as an error carries the sidecar's stderr
/// text verbatim: the message holds it whole, as a contiguous run.
pub proof fn lemma_message_contains_stderr(stderr: String)
    ensures
        ({
            let m = (AppError::SidecarExitedNonZero { stderr }).spec_message();
            &&& m.len() >= stderr@.len()
            &&& exists|i: int|
                0 <= i && i + stderr@.len() <= m.len() && #[trigger] m.subrange(
                    i,
                    i + stderr@.len() as int,
                ) == stderr@
        }),
{
    let m = (AppError::SidecarExitedNonZero { stderr }).spec_message();
    let p = "Sidecar failed: "@;
    assert(m == p + stderr@);
    assert(m.subrange(p.len() as int, p.len() + stderr@.len() as int) =~= stderr@);
}

} // verus!
