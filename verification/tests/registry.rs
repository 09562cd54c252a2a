use image_pull::registry::ImageRegistry;

#[test]
fn empty_registry_has_no_mappings() {
    let reg = ImageRegistry::new();
    assert!(reg.lookup("busybox").is_none());
}

#[test]
fn record_then_lookup() {
    let mut reg = ImageRegistry::new();
    reg.record("docker.io/library/busybox:latest", "busybox_latest");
    assert_eq!(reg.lookup("docker.io/library/busybox:latest").unwrap(), "busybox_latest");
    assert!(reg.lookup("docker.io/library/busybox").is_none());
}

#[test]
fn record_overwrites_last_writer_wins() {
    let mut reg = ImageRegistry::new();
    reg.record("img", "first");
    reg.record("other", "kept");
    reg.record("img", "second");
    assert_eq!(reg.lookup("img").unwrap(), "second");
    assert_eq!(reg.lookup("other").unwrap(), "kept");
}
