//! The pull orchestrator: one state machine per request. The machine decides
//! every step — resolve the id, classify the request, bring the side-service
//! up at most once, run exactly one backend, clean the staging area, record
//! the outcome — while an unverified driver performs the filesystem and
//! subprocess side effects and feeds each result back as an event.

use vstd::prelude::*;
use vstd::string::StringExecFns;

use crate::commands::decryption_key_arg;
use crate::commands::decryption_key_arg_spec;
use crate::commands::ocicrypt_config_contents;
use crate::commands::ocicrypt_config_contents_spec;
use crate::commands::side_service_args;
use crate::commands::side_service_args_spec;
use crate::commands::skopeo_copy_args;
use crate::commands::skopeo_copy_args_spec;
use crate::commands::umoci_unpack_args;
use crate::commands::umoci_unpack_args_spec;
use crate::errors::PullError;
use crate::ident::candidate_cid;
use crate::ident::cid_from_request;
use crate::ident::valid_cid;
use crate::ident::PullRequest;
use crate::paths::bundle_dir;
use crate::paths::bundle_dir_spec;
use crate::paths::oci_layout_dir;
use crate::paths::oci_layout_dir_spec;
use crate::paths::pause_bundle_paths;
use crate::paths::pause_bundle_paths_wf;
use crate::paths::staging_dir;
use crate::paths::staging_dir_spec;
use crate::paths::PauseBundlePaths;
use crate::registry::ImageRegistry;
use crate::sideservice::decision_spec;
use crate::sideservice::next_state_spec;
use crate::sideservice::SideServiceManager;
use crate::sideservice::SideState;
use crate::sideservice::StartDecision;
use crate::strutil::last_segment;
use crate::strutil::last_segment_of;
use crate::strutil::starts_with;
use crate::strutil::str_starts_with;

verus! {

/// The process-lifetime backend selection, probed once at construction: the
/// external-tool adapter when the registry-copy tool is present on the
/// filesystem, the embedded client otherwise. Never re-evaluated per request.
#[derive(Clone, Copy, Debug, PartialEq, Eq, Structural)]
pub enum BackendChoice {
    ExternalTool,
    EmbeddedClient,
}

/// The per-request snapshot of the agent configuration, immutable here.
pub struct PullContext {
    pub https_proxy: String,
    pub no_proxy: String,
    /// Decryption-key-broker parameters; empty means no decryption.
    pub aa_kbc_params: String,
    /// Signature policy file; empty means allow-all.
    pub container_policy_path: String,
    pub enable_signature_verification: bool,
    pub backend: BackendChoice,
}

/// A registry image whose trailing name marks it as the pause image is
/// installed from the local template instead of being pulled.
pub open spec fn is_pause_ref(image: Seq<char>) -> bool {
    last_segment(image).len() > 0 && starts_with(last_segment(image), "pause:"@)
}

pub fn is_pause_image(image: &str) -> (r: bool)
    ensures
        r == is_pause_ref(image@),
{
    let seg = last_segment_of(image);
    !seg.is_empty() && str_starts_with(seg, "pause:")
}

#[derive(Clone, Copy, Debug, PartialEq, Eq, Structural)]
pub enum PullPhase {
    /// Fresh machine; nothing decided yet.
    ResolvingId,
    /// The driver is copying the pause-bundle template into place.
    InstallingPause,
    /// This request won the side-service startup and awaits its result.
    StartingSideService,
    /// The registry-copy tool is fetching into the staging area.
    CopyingImage,
    /// The copy failed; the staging area is being removed best-effort.
    CleaningAfterFailedCopy,
    /// The unpack tool is materializing the bundle.
    UnpackingImage,
    /// The unpack succeeded; the staging area is being reclaimed.
    RemovingStaging,
    /// The embedded client is pulling and unpacking in one step.
    PullingEmbedded,
    Succeeded,
    Failed,
}

#[derive(Clone, Copy, Debug, PartialEq, Eq, Structural)]
pub enum PauseOutcome {
    Installed,
    /// The read-only template is absent from the guest filesystem.
    TemplateMissing,
    /// Creating the rootfs directory or copying a template piece failed.
    CopyFailed,
}

/// What the driver reports back after performing an action.
#[derive(Clone, Copy, Debug, PartialEq, Eq, Structural)]
pub enum Event {
    Begin,
    PauseInstalled { outcome: PauseOutcome },
    SideServiceStarted { ok: bool },
    CopyFinished { ok: bool },
    UnpackFinished { ok: bool },
    StagingRemoved { ok: bool },
    EmbeddedFinished { ok: bool },
}

/// Per-request settings of the embedded pull-and-unpack call.
pub struct EmbeddedPullConfig {
    pub image: String,
    /// Created by the driver before the call; the client unpacks into it.
    pub bundle_dir: String,
    pub source_creds: Option<String>,
    /// Decryption descriptor naming the side-service's key-unwrap endpoint.
    pub decrypt_config: String,
    pub security_validate: bool,
    /// Authenticated-credential support, on whenever broker parameters are set.
    pub auth: bool,
}

/// What the driver must do next. Exactly one action comes out of every step.
pub enum Action {
    /// Create `paths.rootfs_dir`, then copy the template's config descriptor
    /// and pause binary to their targets, each only if not already present.
    InstallPauseBundle { paths: PauseBundlePaths },
    /// Write `config_contents` to `config_path`, then spawn `program` with
    /// `args`, detached for the remaining lifetime of the process.
    StartSideService {
        config_path: String,
        config_contents: String,
        program: String,
        args: Vec<String>,
    },
    /// Create `staging_oci_dir`, then run `program` with `args` to completion;
    /// with `set_keyprovider_env` the key-provider config path is put in the
    /// subprocess environment.
    RunCopy {
        staging_oci_dir: String,
        program: String,
        args: Vec<String>,
        set_keyprovider_env: bool,
    },
    /// Remove the directory tree at `path`.
    RemoveStagingDir { path: String },
    /// Run `program` with `args` to completion.
    RunUnpack { program: String, args: Vec<String> },
    /// Create `config.bundle_dir`, then run the embedded client under the
    /// process-wide pull lock: at most one embedded pull executes at a time.
    RunEmbeddedPull { config: EmbeddedPullConfig },
    /// The pull succeeded; respond with the image reference.
    Finish { image_ref: String },
    /// The pull failed; respond with the error's description.
    Fail { error: PullError },
}

/// Which events a phase can receive; terminal phases receive none.
pub open spec fn expects(phase: PullPhase, event: Event) -> bool {
    match (phase, event) {
        (PullPhase::ResolvingId, Event::Begin) => true,
        (PullPhase::InstallingPause, Event::PauseInstalled { .. }) => true,
        (PullPhase::StartingSideService, Event::SideServiceStarted { .. }) => true,
        (PullPhase::CopyingImage, Event::CopyFinished { .. }) => true,
        (PullPhase::CleaningAfterFailedCopy, Event::StagingRemoved { .. }) => true,
        (PullPhase::UnpackingImage, Event::UnpackFinished { .. }) => true,
        (PullPhase::RemovingStaging, Event::StagingRemoved { .. }) => true,
        (PullPhase::PullingEmbedded, Event::EmbeddedFinished { .. }) => true,
        _ => false,
    }
}

pub open spec fn creds_opt(req: PullRequest) -> Option<Seq<char>> {
    if req.source_creds@.len() > 0 {
        Some(req.source_creds@)
    } else {
        None
    }
}

pub open spec fn policy_opt(ctx: PullContext) -> Option<Seq<char>> {
    if ctx.container_policy_path@.len() > 0 {
        Some(ctx.container_policy_path@)
    } else {
        None
    }
}

pub open spec fn opt_string_view(o: Option<String>) -> Option<Seq<char>> {
    match o {
        Some(s) => Some(s@),
        None => None,
    }
}

pub open spec fn embedded_config_wf(c: EmbeddedPullConfig, m: PullMachine) -> bool {
    &&& c.image@ == m.req.image@
    &&& c.bundle_dir@ == bundle_dir_spec(m.cid@)
    &&& opt_string_view(c.source_creds) == creds_opt(m.req)
    &&& c.decrypt_config@ == decryption_key_arg_spec(m.ctx.aa_kbc_params@)
    &&& c.security_validate == m.ctx.enable_signature_verification
    &&& c.auth == (m.ctx.aa_kbc_params@.len() > 0)
}

pub open spec fn is_fail_action(action: Action, e: PullError) -> bool {
    action matches Action::Fail { error } && error == e
}

pub open spec fn is_finish_action(action: Action, image: Seq<char>) -> bool {
    action matches Action::Finish { image_ref } && image_ref@ == image
}

pub open spec fn is_remove_staging_action(action: Action, cid: Seq<char>) -> bool {
    action matches Action::RemoveStagingDir { path } && path@ == staging_dir_spec(cid)
}

pub open spec fn is_install_pause_action(action: Action, cid: Seq<char>) -> bool {
    action matches Action::InstallPauseBundle { paths } && pause_bundle_paths_wf(paths, cid)
}

pub open spec fn is_start_side_service_action(action: Action) -> bool {
    action matches Action::StartSideService {
        config_path,
        config_contents,
        program,
        args,
    } && config_path@ == "/tmp/ocicrypt_config.json"@ && config_contents@
        == ocicrypt_config_contents_spec() && program@ == "/usr/local/bin/attestation-agent"@
        && args.deep_view() == side_service_args_spec()
}

pub open spec fn is_run_copy_action(action: Action, m: PullMachine) -> bool {
    action matches Action::RunCopy {
        staging_oci_dir,
        program,
        args,
        set_keyprovider_env,
    } && staging_oci_dir@ == oci_layout_dir_spec(m.cid@) && program@ == "/usr/bin/skopeo"@
        && args.deep_view() == skopeo_copy_args_spec(
        m.req.image@,
        m.cid@,
        creds_opt(m.req),
        policy_opt(m.ctx),
        m.ctx.aa_kbc_params@,
    ) && set_keyprovider_env == (m.ctx.aa_kbc_params@.len() > 0)
}

pub open spec fn is_run_unpack_action(action: Action, cid: Seq<char>) -> bool {
    action matches Action::RunUnpack { program, args } && program@ == "/usr/local/bin/umoci"@
        && args.deep_view() == umoci_unpack_args_spec(cid)
}

pub open spec fn is_run_embedded_action(action: Action, m: PullMachine) -> bool {
    action matches Action::RunEmbeddedPull { config } && embedded_config_wf(config, m)
}

pub struct PullMachine {
    pub req: PullRequest,
    pub ctx: PullContext,
    pub phase: PullPhase,
    /// The resolved container id; meaningful once the machine left `ResolvingId`.
    pub cid: String,
    /// The failure carried into `Failed`; `None` anywhere else.
    pub error: Option<PullError>,
}

impl PullMachine {
    /// The id is resolved, validated, and exactly what the request asked for.
    pub open spec fn resolved(self) -> bool {
        &&& valid_cid(self.cid@)
        &&& self.cid@ == candidate_cid(self.req.image@, self.req.container_id@)
    }

    pub open spec fn wf(self) -> bool {
        match self.phase {
            PullPhase::ResolvingId => self.error is None,
            PullPhase::InstallingPause => self.resolved() && is_pause_ref(self.req.image@)
                && self.error is None,
            PullPhase::StartingSideService => self.resolved() && !is_pause_ref(self.req.image@)
                && self.ctx.aa_kbc_params@.len() > 0 && self.error is None,
            PullPhase::CopyingImage | PullPhase::CleaningAfterFailedCopy
                | PullPhase::UnpackingImage | PullPhase::RemovingStaging => self.resolved()
                && !is_pause_ref(self.req.image@) && self.ctx.backend == BackendChoice::ExternalTool
                && self.error is None,
            PullPhase::PullingEmbedded => self.resolved() && !is_pause_ref(self.req.image@)
                && self.ctx.backend == BackendChoice::EmbeddedClient && self.error is None,
            PullPhase::Succeeded => self.resolved() && self.error is None,
            PullPhase::Failed => self.error is Some,
        }
    }

    pub fn new(req: PullRequest, ctx: PullContext) -> (m: Self)
        ensures
            m.req == req,
            m.ctx == ctx,
            m.phase == PullPhase::ResolvingId,
            m.wf(),
    {
        PullMachine { req, ctx, phase: PullPhase::ResolvingId, cid: String::new(), error: None }
    }

    /// Selects the one backend of this process and phrases its invocation.
    fn dispatch_backend(&mut self) -> (action: Action)
        requires
            old(self).resolved(),
            !is_pause_ref(old(self).req.image@),
        ensures
            final(self).req == old(self).req,
            final(self).ctx == old(self).ctx,
            final(self).cid == old(self).cid,
            final(self).error == old(self).error,
            dispatch(*final(self), action),
    {
        if matches!(self.ctx.backend, BackendChoice::ExternalTool) {
            self.phase = PullPhase::CopyingImage;
            let creds: Option<&str> = if !self.req.source_creds.as_str().is_empty() {
                Some(self.req.source_creds.as_str())
            } else {
                None
            };
            let policy: Option<&str> = if !self.ctx.container_policy_path.as_str().is_empty() {
                Some(self.ctx.container_policy_path.as_str())
            } else {
                None
            };
            let args = skopeo_copy_args(
                self.req.image.as_str(),
                self.cid.as_str(),
                creds,
                policy,
                self.ctx.aa_kbc_params.as_str(),
            );
            Action::RunCopy {
                staging_oci_dir: oci_layout_dir(self.cid.as_str()),
                program: String::from_str("/usr/bin/skopeo"),
                args,
                set_keyprovider_env: !self.ctx.aa_kbc_params.as_str().is_empty(),
            }
        } else {
            self.phase = PullPhase::PullingEmbedded;
            let creds: Option<String> = if !self.req.source_creds.as_str().is_empty() {
                Some(self.req.source_creds.clone())
            } else {
                None
            };
            Action::RunEmbeddedPull {
                config: EmbeddedPullConfig {
                    image: self.req.image.clone(),
                    bundle_dir: bundle_dir(self.cid.as_str()),
                    source_creds: creds,
                    decrypt_config: decryption_key_arg(self.ctx.aa_kbc_params.as_str()),
                    security_validate: self.ctx.enable_signature_verification,
                    auth: !self.ctx.aa_kbc_params.as_str().is_empty(),
                },
            }
        }
    }

    /// Records the mapping and finishes: the one place the registry changes.
    fn finish_success(&mut self, registry: &mut ImageRegistry) -> (action: Action)
        requires
            old(self).resolved(),
        ensures
            final(self).req == old(self).req,
            final(self).ctx == old(self).ctx,
            final(self).cid == old(self).cid,
            final(self).error == old(self).error,
            final(self).phase == PullPhase::Succeeded,
            final(registry)@ == old(registry)@.insert(old(self).req.image@, old(self).cid@),
            is_finish_action(action, old(self).req.image@),
    {
        registry.record(self.req.image.as_str(), self.cid.as_str());
        self.phase = PullPhase::Succeeded;
        Action::Finish { image_ref: self.req.image.clone() }
    }

    fn fail_with(&mut self, e: PullError) -> (action: Action)
        ensures
            final(self).req == old(self).req,
            final(self).ctx == old(self).ctx,
            final(self).cid == old(self).cid,
            final(self).phase == PullPhase::Failed,
            final(self).error == Some(e),
            is_fail_action(action, e),
    {
        self.phase = PullPhase::Failed;
        self.error = Some(e);
        Action::Fail { error: e }
    }

    /// Advances the machine by one event and says what to do next.
    ///
    /// The last two clauses are the registry guarantee: a successful pull of
    /// image `X` puts `X -> resolved id` into the shared registry at the
    /// succeeding transition, and no step before it touches the registry.
    pub fn step(
        &mut self,
        event: Event,
        side: &mut SideServiceManager,
        registry: &mut ImageRegistry,
    ) -> (action: Action)
        requires
            old(self).wf(),
            expects(old(self).phase, event),
            old(self).phase == PullPhase::StartingSideService ==> old(side).state()
                == SideState::Starting,
        ensures
            final(self).wf(),
            final(self).req == old(self).req,
            final(self).ctx == old(self).ctx,
            step_transition(
                *old(self),
                event,
                old(side).state(),
                *final(self),
                final(side).state(),
                action,
            ),
            final(self).phase == PullPhase::Succeeded ==> final(registry)@ == old(registry)@.insert(
                old(self).req.image@,
                final(self).cid@,
            ),
            final(self).phase != PullPhase::Succeeded ==> final(registry)@ == old(registry)@,
    {
        let phase = self.phase;
        match (phase, event) {
            (PullPhase::ResolvingId, Event::Begin) => {
                match cid_from_request(&self.req) {
                    Err(e) => self.fail_with(e),
                    Ok(cid) => {
                        self.cid = cid;
                        if is_pause_image(self.req.image.as_str()) {
                            self.phase = PullPhase::InstallingPause;
                            Action::InstallPauseBundle {
                                paths: pause_bundle_paths(self.cid.as_str()),
                            }
                        } else {
                            let d = side.ensure_started(self.ctx.aa_kbc_params.as_str());
                            if matches!(d, StartDecision::Winner) {
                                self.phase = PullPhase::StartingSideService;
                                Action::StartSideService {
                                    config_path: String::from_str("/tmp/ocicrypt_config.json"),
                                    config_contents: ocicrypt_config_contents(),
                                    program: String::from_str("/usr/local/bin/attestation-agent"),
                                    args: side_service_args(),
                                }
                            } else {
                                self.dispatch_backend()
                            }
                        }
                    },
                }
            },
            (PullPhase::InstallingPause, Event::PauseInstalled { outcome }) => {
                match outcome {
                    PauseOutcome::Installed => self.finish_success(registry),
                    PauseOutcome::TemplateMissing => self.fail_with(PullError::PauseBundleMissing),
                    PauseOutcome::CopyFailed => self.fail_with(PullError::PauseInstallFailed),
                }
            },
            (PullPhase::StartingSideService, Event::SideServiceStarted { ok }) => {
                if ok {
                    side.mark_running();
                    self.dispatch_backend()
                } else {
                    // Fail-fast: the lifecycle flag stays flipped, so no later
                    // request retries startup; this request alone fails.
                    self.fail_with(PullError::SideServiceStartFailed)
                }
            },
            (PullPhase::CopyingImage, Event::CopyFinished { ok }) => {
                if ok {
                    self.phase = PullPhase::UnpackingImage;
                    Action::RunUnpack {
                        program: String::from_str("/usr/local/bin/umoci"),
                        args: umoci_unpack_args(self.cid.as_str()),
                    }
                } else {
                    self.phase = PullPhase::CleaningAfterFailedCopy;
                    Action::RemoveStagingDir { path: staging_dir(self.cid.as_str()) }
                }
            },
            (PullPhase::CleaningAfterFailedCopy, Event::StagingRemoved { ok }) => {
                self.fail_with(PullError::CopyFailed { cleanup_ok: ok })
            },
            (PullPhase::UnpackingImage, Event::UnpackFinished { ok }) => {
                if ok {
                    self.phase = PullPhase::RemovingStaging;
                    Action::RemoveStagingDir { path: staging_dir(self.cid.as_str()) }
                } else {
                    self.fail_with(PullError::UnpackFailed)
                }
            },
            (PullPhase::RemovingStaging, Event::StagingRemoved { ok }) => {
                if ok {
                    self.finish_success(registry)
                } else {
                    self.fail_with(PullError::StagingCleanupFailed)
                }
            },
            (PullPhase::PullingEmbedded, Event::EmbeddedFinished { ok }) => {
                if ok {
                    self.finish_success(registry)
                } else {
                    self.fail_with(PullError::EmbeddedPullFailed)
                }
            },
            _ => {
                proof {
                    assert(false);
                }
                Action::Fail { error: PullError::InvalidContainerId }
            },
        }
    }
}

/// The backend half of a dispatching transition: the machine enters the one
/// phase of the selected backend, and the action invokes exactly that backend.
pub open spec fn dispatch(post: PullMachine, action: Action) -> bool {
    if post.ctx.backend == BackendChoice::ExternalTool {
        post.phase == PullPhase::CopyingImage && is_run_copy_action(action, post)
    } else {
        post.phase == PullPhase::PullingEmbedded && is_run_embedded_action(action, post)
    }
}

pub open spec fn succeeded_transition(pre: PullMachine, post: PullMachine, action: Action) -> bool {
    &&& post.phase == PullPhase::Succeeded
    &&& post.cid == pre.cid
    &&& post.error == pre.error
    &&& is_finish_action(action, pre.req.image@)
}

pub open spec fn failed_transition(
    pre: PullMachine,
    post: PullMachine,
    action: Action,
    e: PullError,
) -> bool {
    &&& post.phase == PullPhase::Failed
    &&& post.cid == pre.cid
    &&& post.error == Some(e)
    &&& is_fail_action(action, e)
}

/// The first transition: resolve and validate the id, fail the request on an
/// invalid one; classify pause against registry image; for a registry image
/// make the one-shot side-service decision, and when nothing (or nobody else)
/// is starting, dispatch the backend at once.
pub open spec fn begin_transition(
    pre: PullMachine,
    side_pre: SideState,
    post: PullMachine,
    side_post: SideState,
    action: Action,
) -> bool {
    let cand = candidate_cid(pre.req.image@, pre.req.container_id@);
    if !valid_cid(cand) {
        &&& side_post == side_pre
        &&& failed_transition(pre, post, action, PullError::InvalidContainerId)
    } else {
        &&& post.cid@ == cand
        &&& post.error == pre.error
        &&& if is_pause_ref(pre.req.image@) {
            &&& side_post == side_pre
            &&& post.phase == PullPhase::InstallingPause
            &&& is_install_pause_action(action, post.cid@)
        } else {
            &&& side_post == next_state_spec(side_pre, pre.ctx.aa_kbc_params@)
            &&& if decision_spec(side_pre, pre.ctx.aa_kbc_params@) == StartDecision::Winner {
                &&& post.phase == PullPhase::StartingSideService
                &&& is_start_side_service_action(action)
            } else {
                dispatch(post, action)
            }
        }
    }
}

/// The whole transition relation of `PullMachine::step`, one case per
/// expected phase/event pair.
pub open spec fn step_transition(
    pre: PullMachine,
    event: Event,
    side_pre: SideState,
    post: PullMachine,
    side_post: SideState,
    action: Action,
) -> bool {
    match (pre.phase, event) {
        (PullPhase::ResolvingId, Event::Begin) => begin_transition(
            pre,
            side_pre,
            post,
            side_post,
            action,
        ),
        (PullPhase::InstallingPause, Event::PauseInstalled { outcome }) => {
            &&& side_post == side_pre
            &&& match outcome {
                PauseOutcome::Installed => succeeded_transition(pre, post, action),
                PauseOutcome::TemplateMissing => failed_transition(
                    pre,
                    post,
                    action,
                    PullError::PauseBundleMissing,
                ),
                PauseOutcome::CopyFailed => failed_transition(
                    pre,
                    post,
                    action,
                    PullError::PauseInstallFailed,
                ),
            }
        },
        (PullPhase::StartingSideService, Event::SideServiceStarted { ok }) => {
            if ok {
                &&& side_post == SideState::Running
                &&& post.cid == pre.cid
                &&& post.error == pre.error
                &&& dispatch(post, action)
            } else {
                &&& side_post == side_pre
                &&& failed_transition(pre, post, action, PullError::SideServiceStartFailed)
            }
        },
        (PullPhase::CopyingImage, Event::CopyFinished { ok }) => {
            &&& side_post == side_pre
            &&& post.cid == pre.cid
            &&& post.error == pre.error
            &&& if ok {
                &&& post.phase == PullPhase::UnpackingImage
                &&& is_run_unpack_action(action, post.cid@)
            } else {
                // A failed copy step removes its temporary staging directory.
                &&& post.phase == PullPhase::CleaningAfterFailedCopy
                &&& is_remove_staging_action(action, post.cid@)
            }
        },
        (PullPhase::CleaningAfterFailedCopy, Event::StagingRemoved { ok }) => {
            // Best-effort cleanup: its own failure is folded into the error.
            &&& side_post == side_pre
            &&& failed_transition(pre, post, action, PullError::CopyFailed { cleanup_ok: ok })
        },
        (PullPhase::UnpackingImage, Event::UnpackFinished { ok }) => {
            &&& side_post == side_pre
            &&& if ok {
                // A successful unpack step also removes the staging directory.
                &&& post.cid == pre.cid
                &&& post.error == pre.error
                &&& post.phase == PullPhase::RemovingStaging
                &&& is_remove_staging_action(action, post.cid@)
            } else {
                failed_transition(pre, post, action, PullError::UnpackFailed)
            }
        },
        (PullPhase::RemovingStaging, Event::StagingRemoved { ok }) => {
            &&& side_post == side_pre
            &&& if ok {
                succeeded_transition(pre, post, action)
            } else {
                failed_transition(pre, post, action, PullError::StagingCleanupFailed)
            }
        },
        (PullPhase::PullingEmbedded, Event::EmbeddedFinished { ok }) => {
            &&& side_post == side_pre
            &&& if ok {
                succeeded_transition(pre, post, action)
            } else {
                failed_transition(pre, post, action, PullError::EmbeddedPullFailed)
            }
        },
        _ => false,
    }
}

} // verus!
