//! Request-scoped failure conditions. Every failure is surfaced to the caller
//! as one internal-error response carrying a human-readable message; the
//! variants below keep the causes apart inside the library, and
//! `error_message` fixes the exact text each one is reported with.

use vstd::prelude::*;
use vstd::string::StringExecFns;

verus! {

#[derive(Clone, Copy, Debug, PartialEq, Eq, Structural)]
pub enum PullError {
    /// The explicit or derived container id failed validation.
    InvalidContainerId,
    /// No pause-bundle template is present on the guest's filesystem.
    PauseBundleMissing,
    /// Copying the pause-bundle template into place failed.
    PauseInstallFailed,
    /// Writing the decryption config or spawning the side-service failed.
    SideServiceStartFailed,
    /// The registry-copy tool exited with failure; `cleanup_ok` tells whether
    /// the best-effort removal of the staging directory then succeeded.
    CopyFailed { cleanup_ok: bool },
    /// The unpack tool exited with failure.
    UnpackFailed,
    /// The staging directory could not be removed after a successful unpack.
    StagingCleanupFailed,
    /// The embedded pull client reported failure.
    EmbeddedPullFailed,
}

/// The human-readable message each failure is reported with. When the
/// best-effort staging cleanup after a failed copy itself fails, that cleanup
/// error is folded into the copy-failure message, never silently swallowed.
pub open spec fn error_message(e: PullError) -> Seq<char> {
    match e {
        PullError::InvalidContainerId => "invalid image reference or container id"@,
        PullError::PauseBundleMissing => "pause image not present in rootfs"@,
        PullError::PauseInstallFailed => "failed to install the pause bundle"@,
        PullError::SideServiceStartFailed => "failed to start the decryption side-service"@,
        PullError::CopyFailed { cleanup_ok } => if cleanup_ok {
            "failed to pull image"@
        } else {
            "failed to pull image"@
                + " and clean up of temporary container directory failed"@
        },
        PullError::UnpackFailed => "failed to unpack image"@,
        PullError::StagingCleanupFailed => "failed to remove the staging directory"@,
        PullError::EmbeddedPullFailed => "the embedded pull client failed"@,
    }
}

impl PullError {
    /// The message of this failure, for the single opaque internal-error
    /// condition at the response boundary: exactly `error_message`.
    pub fn describe(&self) -> (r: String)
        ensures
            r@ == error_message(*self),
    {
        match self {
            PullError::InvalidContainerId => {
                String::from_str("invalid image reference or container id")
            },
            PullError::PauseBundleMissing => String::from_str("pause image not present in rootfs"),
            PullError::PauseInstallFailed => {
                String::from_str("failed to install the pause bundle")
            },
            PullError::SideServiceStartFailed => {
                String::from_str("failed to start the decryption side-service")
            },
            PullError::CopyFailed { cleanup_ok } => {
                let mut msg = String::from_str("failed to pull image");
                if !*cleanup_ok {
                    msg.append(" and clean up of temporary container directory failed");
                }
                msg
            },
            PullError::UnpackFailed => String::from_str("failed to unpack image"),
            PullError::StagingCleanupFailed => {
                String::from_str("failed to remove the staging directory")
            },
            PullError::EmbeddedPullFailed => String::from_str("the embedded pull client failed"),
        }
    }
}

} // verus!
