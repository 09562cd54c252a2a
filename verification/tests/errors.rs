use image_pull::errors::PullError;

#[test]
fn every_failure_has_its_message() {
    assert_eq!(
        PullError::InvalidContainerId.describe(),
        "invalid image reference or container id"
    );
    assert_eq!(PullError::PauseBundleMissing.describe(), "pause image not present in rootfs");
    assert_eq!(PullError::PauseInstallFailed.describe(), "failed to install the pause bundle");
    assert_eq!(
        PullError::SideServiceStartFailed.describe(),
        "failed to start the decryption side-service"
    );
    assert_eq!(PullError::UnpackFailed.describe(), "failed to unpack image");
    assert_eq!(
        PullError::StagingCleanupFailed.describe(),
        "failed to remove the staging directory"
    );
    assert_eq!(PullError::EmbeddedPullFailed.describe(), "the embedded pull client failed");
}

#[test]
fn cleanup_failure_is_folded_into_the_copy_failure_message() {
    assert_eq!(
        PullError::CopyFailed { cleanup_ok: true }.describe(),
        "failed to pull image"
    );
    assert_eq!(
        PullError::CopyFailed { cleanup_ok: false }.describe(),
        "failed to pull image and clean up of temporary container directory failed"
    );
}
