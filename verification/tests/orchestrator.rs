use image_pull::errors::PullError;
use image_pull::ident::PullRequest;
use image_pull::orchestrator::Action;
use image_pull::orchestrator::BackendChoice;
use image_pull::orchestrator::Event;
use image_pull::orchestrator::PauseOutcome;
use image_pull::orchestrator::PullContext;
use image_pull::orchestrator::PullMachine;
use image_pull::orchestrator::PullPhase;
use image_pull::orchestrator::is_pause_image;
use image_pull::registry::ImageRegistry;
use image_pull::sideservice::SideServiceManager;
use image_pull::sideservice::SideState;

fn request(image: &str, cid: &str) -> PullRequest {
    PullRequest {
        image: image.to_string(),
        container_id: cid.to_string(),
        source_creds: String::new(),
    }
}

fn context(backend: BackendChoice, kbc: &str) -> PullContext {
    PullContext {
        https_proxy: String::new(),
        no_proxy: String::new(),
        aa_kbc_params: kbc.to_string(),
        container_policy_path: String::new(),
        enable_signature_verification: false,
        backend,
    }
}

#[test]
fn pause_images_are_classified_by_their_trailing_name() {
    assert!(is_pause_image("pause:3.9"));
    assert!(is_pause_image("registry.example/pause:3.9"));
    assert!(!is_pause_image("registry.example/pause"));
    assert!(!is_pause_image("registry.example/app:1.0"));
    assert!(!is_pause_image("pause:3.9/"));
}

#[test]
fn invalid_id_fails_before_any_side_effect() {
    let mut m = PullMachine::new(request("abc/", ""), context(BackendChoice::ExternalTool, ""));
    let mut side = SideServiceManager::new();
    let mut reg = ImageRegistry::new();
    let action = m.step(Event::Begin, &mut side, &mut reg);
    assert!(matches!(action, Action::Fail { error: PullError::InvalidContainerId }));
    assert_eq!(m.phase, PullPhase::Failed);
    assert_eq!(side.current_state(), SideState::NotStarted);
    assert!(reg.lookup("abc/").is_none());
}

#[test]
fn pause_pull_installs_the_template_and_records() {
    let image = "registry.example/pause:3.9";
    let mut m = PullMachine::new(request(image, ""), context(BackendChoice::ExternalTool, ""));
    let mut side = SideServiceManager::new();
    let mut reg = ImageRegistry::new();

    match m.step(Event::Begin, &mut side, &mut reg) {
        Action::InstallPauseBundle { paths } => {
            assert_eq!(paths.rootfs_dir, "/run/kata-containers/pause_3.9/rootfs");
            assert_eq!(paths.template_config, "/pause_bundle/config.json");
        },
        other => panic!("expected a pause install, got {}", describe(&other)),
    }
    assert_eq!(m.phase, PullPhase::InstallingPause);
    assert!(reg.lookup(image).is_none());

    let action = m.step(
        Event::PauseInstalled { outcome: PauseOutcome::Installed },
        &mut side,
        &mut reg,
    );
    assert!(matches!(action, Action::Finish { ref image_ref } if image_ref == image));
    assert_eq!(m.phase, PullPhase::Succeeded);
    assert_eq!(reg.lookup(image).unwrap(), "pause_3.9");
}

#[test]
fn missing_pause_template_is_a_not_found_failure() {
    let mut m = PullMachine::new(request("pause:3.9", ""), context(BackendChoice::ExternalTool, ""));
    let mut side = SideServiceManager::new();
    let mut reg = ImageRegistry::new();
    m.step(Event::Begin, &mut side, &mut reg);
    let action = m.step(
        Event::PauseInstalled { outcome: PauseOutcome::TemplateMissing },
        &mut side,
        &mut reg,
    );
    assert!(matches!(action, Action::Fail { error: PullError::PauseBundleMissing }));
    assert!(reg.lookup("pause:3.9").is_none());
}

#[test]
fn external_pull_runs_copy_unpack_cleanup_then_records() {
    let image = "prefix/a:b";
    let mut m = PullMachine::new(request(image, ""), context(BackendChoice::ExternalTool, ""));
    let mut side = SideServiceManager::new();
    let mut reg = ImageRegistry::new();

    match m.step(Event::Begin, &mut side, &mut reg) {
        Action::RunCopy { staging_oci_dir, program, args, set_keyprovider_env } => {
            assert_eq!(staging_oci_dir, "/tmp/a_b/image_oci");
            assert_eq!(program, "/usr/bin/skopeo");
            assert_eq!(args[0], "copy");
            assert_eq!(args[1], "docker://prefix/a:b");
            assert!(!set_keyprovider_env);
        },
        other => panic!("expected a copy, got {}", describe(&other)),
    }
    // no decryption requested: the side-service is never started
    assert_eq!(side.current_state(), SideState::NotStarted);

    match m.step(Event::CopyFinished { ok: true }, &mut side, &mut reg) {
        Action::RunUnpack { program, args } => {
            assert_eq!(program, "/usr/local/bin/umoci");
            assert_eq!(
                args,
                vec!["unpack", "--image", "/tmp/a_b/image_oci", "/run/kata-containers/a_b"]
            );
        },
        other => panic!("expected an unpack, got {}", describe(&other)),
    }

    // a successful unpack step removes the staging directory
    match m.step(Event::UnpackFinished { ok: true }, &mut side, &mut reg) {
        Action::RemoveStagingDir { path } => assert_eq!(path, "/tmp/a_b"),
        other => panic!("expected staging removal, got {}", describe(&other)),
    }
    // the registry is untouched until the pull completes
    assert!(reg.lookup(image).is_none());

    let action = m.step(Event::StagingRemoved { ok: true }, &mut side, &mut reg);
    assert!(matches!(action, Action::Finish { ref image_ref } if image_ref == image));
    assert_eq!(m.phase, PullPhase::Succeeded);
    assert_eq!(reg.lookup(image).unwrap(), "a_b");
}

#[test]
fn failed_copy_removes_the_staging_directory_then_fails() {
    let mut m = PullMachine::new(request("prefix/a:b", ""), context(BackendChoice::ExternalTool, ""));
    let mut side = SideServiceManager::new();
    let mut reg = ImageRegistry::new();
    m.step(Event::Begin, &mut side, &mut reg);

    match m.step(Event::CopyFinished { ok: false }, &mut side, &mut reg) {
        Action::RemoveStagingDir { path } => assert_eq!(path, "/tmp/a_b"),
        other => panic!("expected staging removal, got {}", describe(&other)),
    }
    assert_eq!(m.phase, PullPhase::CleaningAfterFailedCopy);

    let action = m.step(Event::StagingRemoved { ok: false }, &mut side, &mut reg);
    assert!(matches!(action, Action::Fail { error: PullError::CopyFailed { cleanup_ok: false } }));
    assert!(reg.lookup("prefix/a:b").is_none());
}

#[test]
fn failed_unpack_fails_without_recording() {
    let mut m = PullMachine::new(request("prefix/a:b", ""), context(BackendChoice::ExternalTool, ""));
    let mut side = SideServiceManager::new();
    let mut reg = ImageRegistry::new();
    m.step(Event::Begin, &mut side, &mut reg);
    m.step(Event::CopyFinished { ok: true }, &mut side, &mut reg);
    let action = m.step(Event::UnpackFinished { ok: false }, &mut side, &mut reg);
    assert!(matches!(action, Action::Fail { error: PullError::UnpackFailed }));
    assert!(reg.lookup("prefix/a:b").is_none());
}

#[test]
fn failed_staging_cleanup_after_unpack_fails_the_request() {
    let mut m = PullMachine::new(request("prefix/a:b", ""), context(BackendChoice::ExternalTool, ""));
    let mut side = SideServiceManager::new();
    let mut reg = ImageRegistry::new();
    m.step(Event::Begin, &mut side, &mut reg);
    m.step(Event::CopyFinished { ok: true }, &mut side, &mut reg);
    m.step(Event::UnpackFinished { ok: true }, &mut side, &mut reg);
    let action = m.step(Event::StagingRemoved { ok: false }, &mut side, &mut reg);
    assert!(matches!(action, Action::Fail { error: PullError::StagingCleanupFailed }));
}

#[test]
fn decryption_starts_the_side_service_once_across_requests() {
    let kbc = "cc_kbc::http://broker";
    let mut side = SideServiceManager::new();
    let mut reg = ImageRegistry::new();

    let mut first = PullMachine::new(
        request("prefix/a:b", ""),
        context(BackendChoice::ExternalTool, kbc),
    );
    match first.step(Event::Begin, &mut side, &mut reg) {
        Action::StartSideService { config_path, config_contents, program, args } => {
            assert_eq!(config_path, "/tmp/ocicrypt_config.json");
            assert_eq!(
                config_contents,
                "{\"key-providers\":{\"attestation-agent\":{\"grpc\":\"127.0.0.1:50000\"}}}"
            );
            assert_eq!(program, "/usr/local/bin/attestation-agent");
            assert_eq!(args.len(), 4);
        },
        other => panic!("expected side-service startup, got {}", describe(&other)),
    }
    assert_eq!(side.current_state(), SideState::Starting);

    // a concurrent request does not start it again: straight to its backend
    let mut second = PullMachine::new(
        request("prefix/c:d", ""),
        context(BackendChoice::ExternalTool, kbc),
    );
    match second.step(Event::Begin, &mut side, &mut reg) {
        Action::RunCopy { args, set_keyprovider_env, .. } => {
            assert!(set_keyprovider_env);
            let decrypt = args.iter().position(|a| a == "--decryption-key").unwrap();
            assert_eq!(args[decrypt + 1], "provider:attestation-agent:cc_kbc::http://broker");
        },
        other => panic!("expected a copy, got {}", describe(&other)),
    }

    // the winner resumes once startup succeeded
    match first.step(Event::SideServiceStarted { ok: true }, &mut side, &mut reg) {
        Action::RunCopy { .. } => (),
        other => panic!("expected a copy, got {}", describe(&other)),
    }
    assert_eq!(side.current_state(), SideState::Running);
}

#[test]
fn side_service_startup_failure_fails_the_owning_request() {
    let mut m = PullMachine::new(
        request("prefix/a:b", ""),
        context(BackendChoice::ExternalTool, "params"),
    );
    let mut side = SideServiceManager::new();
    let mut reg = ImageRegistry::new();
    m.step(Event::Begin, &mut side, &mut reg);
    let action = m.step(Event::SideServiceStarted { ok: false }, &mut side, &mut reg);
    assert!(matches!(action, Action::Fail { error: PullError::SideServiceStartFailed }));
    // fail-fast: the flag stays flipped, no later request retries startup
    assert_eq!(side.current_state(), SideState::Starting);
}

#[test]
fn embedded_pull_is_configured_and_records_on_success() {
    let image = "registry.example/app:1.0";
    let mut ctx = context(BackendChoice::EmbeddedClient, "params");
    ctx.enable_signature_verification = true;
    let mut req = request(image, "");
    req.source_creds = "user:pass".to_string();
    let mut m = PullMachine::new(req, ctx);
    let mut side = SideServiceManager::new();
    side.ensure_started("params");
    let mut reg = ImageRegistry::new();

    match m.step(Event::Begin, &mut side, &mut reg) {
        Action::RunEmbeddedPull { config } => {
            assert_eq!(config.image, image);
            assert_eq!(config.bundle_dir, "/run/kata-containers/app_1.0");
            assert_eq!(config.source_creds.as_deref(), Some("user:pass"));
            assert_eq!(config.decrypt_config, "provider:attestation-agent:params");
            assert!(config.security_validate);
            assert!(config.auth);
        },
        other => panic!("expected an embedded pull, got {}", describe(&other)),
    }
    assert_eq!(m.phase, PullPhase::PullingEmbedded);

    let action = m.step(Event::EmbeddedFinished { ok: true }, &mut side, &mut reg);
    assert!(matches!(action, Action::Finish { ref image_ref } if image_ref == image));
    assert_eq!(reg.lookup(image).unwrap(), "app_1.0");
}

#[test]
fn embedded_pull_failure_is_surfaced() {
    let mut m = PullMachine::new(
        request("registry.example/app:1.0", ""),
        context(BackendChoice::EmbeddedClient, ""),
    );
    let mut side = SideServiceManager::new();
    let mut reg = ImageRegistry::new();
    m.step(Event::Begin, &mut side, &mut reg);
    let action = m.step(Event::EmbeddedFinished { ok: false }, &mut side, &mut reg);
    assert!(matches!(action, Action::Fail { error: PullError::EmbeddedPullFailed }));
    assert!(m.error.is_some());
    assert!(!m.error.unwrap().describe().is_empty());
}

#[test]
fn pause_install_copy_failure_is_surfaced() {
    let mut m = PullMachine::new(request("pause:3.9", ""), context(BackendChoice::ExternalTool, ""));
    let mut side = SideServiceManager::new();
    let mut reg = ImageRegistry::new();
    m.step(Event::Begin, &mut side, &mut reg);
    let action = m.step(
        Event::PauseInstalled { outcome: PauseOutcome::CopyFailed },
        &mut side,
        &mut reg,
    );
    assert!(matches!(action, Action::Fail { error: PullError::PauseInstallFailed }));
}

fn describe(action: &Action) -> &'static str {
    match action {
        Action::InstallPauseBundle { .. } => "InstallPauseBundle",
        Action::StartSideService { .. } => "StartSideService",
        Action::RunCopy { .. } => "RunCopy",
        Action::RemoveStagingDir { .. } => "RemoveStagingDir",
        Action::RunUnpack { .. } => "RunUnpack",
        Action::RunEmbeddedPull { .. } => "RunEmbeddedPull",
        Action::Finish { .. } => "Finish",
        Action::Fail { .. } => "Fail",
    }
}
