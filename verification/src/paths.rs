//! The filesystem layout contract: fixed tool and template locations, the
//! per-request staging area, and the final bundle directory, all keyed by the
//! validated container id.

use vstd::prelude::*;
use vstd::string::StringExecFns;

verus! {

/// Location of the registry-copy tool; its presence selects the
/// external-tool backend for the whole process lifetime.
pub const SKOPEO_PATH: &'static str = "/usr/bin/skopeo";

/// Location of the external unpack tool.
pub const UMOCI_PATH: &'static str = "/usr/local/bin/umoci";

/// Location of the decryption side-service binary.
pub const SIDE_SERVICE_PATH: &'static str = "/usr/local/bin/attestation-agent";

/// Fixed read-only pause-bundle template shipped in the guest rootfs.
pub const PAUSE_BUNDLE_TEMPLATE: &'static str = "/pause_bundle";

/// Fixed path of the decryption key-provider config file.
pub const OCICRYPT_CONFIG_PATH: &'static str = "/tmp/ocicrypt_config.json";

/// Where the embedded pull client keeps image layers.
pub const IMAGE_WORK_DIR: &'static str = "/run/image/";

/// Base directory of final bundles, one subdirectory per container id.
pub const CONTAINER_BASE: &'static str = "/run/kata-containers";

/// The temporary per-request staging directory, keyed by container id.
pub open spec fn staging_dir_spec(cid: Seq<char>) -> Seq<char> {
    "/tmp/"@ + cid
}

pub fn staging_dir(cid: &str) -> (r: String)
    ensures
        r@ == staging_dir_spec(cid@),
{
    let mut s = String::from_str("/tmp/");
    s.append(cid);
    s
}

/// The OCI-layout directory inside the staging area.
pub open spec fn oci_layout_dir_spec(cid: Seq<char>) -> Seq<char> {
    staging_dir_spec(cid) + "/image_oci"@
}

pub fn oci_layout_dir(cid: &str) -> (r: String)
    ensures
        r@ == oci_layout_dir_spec(cid@),
{
    let mut s = staging_dir(cid);
    s.append("/image_oci");
    s
}

/// The final bundle directory of a container id.
pub open spec fn bundle_dir_spec(cid: Seq<char>) -> Seq<char> {
    "/run/kata-containers/"@ + cid
}

pub fn bundle_dir(cid: &str) -> (r: String)
    ensures
        r@ == bundle_dir_spec(cid@),
{
    let mut s = String::from_str("/run/kata-containers/");
    s.append(cid);
    s
}

/// Every path the pause-bundle installer touches: the read-only template's
/// pieces, and their destinations inside the target bundle.
pub struct PauseBundlePaths {
    /// The template directory itself; its absence is a not-found failure.
    pub template_dir: String,
    /// The template's runtime configuration descriptor.
    pub template_config: String,
    /// The template's pause binary.
    pub template_binary: String,
    /// The bundle's root-filesystem directory, created first.
    pub rootfs_dir: String,
    /// Destination of the configuration descriptor; copied only if absent.
    pub target_config: String,
    /// Destination of the pause binary; copied only if absent.
    pub target_binary: String,
}

pub open spec fn pause_rootfs_dir_spec(cid: Seq<char>) -> Seq<char> {
    bundle_dir_spec(cid) + "/rootfs"@
}

pub open spec fn pause_target_config_spec(cid: Seq<char>) -> Seq<char> {
    bundle_dir_spec(cid) + "/config.json"@
}

pub open spec fn pause_target_binary_spec(cid: Seq<char>) -> Seq<char> {
    pause_rootfs_dir_spec(cid) + "/pause"@
}

pub open spec fn pause_bundle_paths_wf(p: PauseBundlePaths, cid: Seq<char>) -> bool {
    &&& p.template_dir@ == "/pause_bundle"@
    &&& p.template_config@ == "/pause_bundle/config.json"@
    &&& p.template_binary@ == "/pause_bundle/rootfs/pause"@
    &&& p.rootfs_dir@ == pause_rootfs_dir_spec(cid)
    &&& p.target_config@ == pause_target_config_spec(cid)
    &&& p.target_binary@ == pause_target_binary_spec(cid)
}

/// Which template pieces the pause installer must copy.
#[derive(Clone, Copy, Debug, PartialEq, Eq, Structural)]
pub struct PauseCopyPlan {
    pub copy_config: bool,
    pub copy_binary: bool,
}

/// The pause installer copies (never moves) each template piece exactly when
/// its destination is not already present, making the install idempotent:
/// given whether the config descriptor and the pause binary already exist,
/// says which of the two copies to perform.
pub fn pause_copy_plan(config_exists: bool, binary_exists: bool) -> (r: PauseCopyPlan)
    ensures
        r.copy_config == !config_exists,
        r.copy_binary == !binary_exists,
{
    PauseCopyPlan { copy_config: !config_exists, copy_binary: !binary_exists }
}

pub fn pause_bundle_paths(cid: &str) -> (r: PauseBundlePaths)
    ensures
        pause_bundle_paths_wf(r, cid@),
{
    let mut rootfs_dir = bundle_dir(cid);
    rootfs_dir.append("/rootfs");
    let mut target_config = bundle_dir(cid);
    target_config.append("/config.json");
    let mut target_binary = rootfs_dir.clone();
    target_binary.append("/pause");
    PauseBundlePaths {
        template_dir: String::from_str("/pause_bundle"),
        template_config: String::from_str("/pause_bundle/config.json"),
        template_binary: String::from_str("/pause_bundle/rootfs/pause"),
        rootfs_dir,
        target_config,
        target_binary,
    }
}

} // verus!
