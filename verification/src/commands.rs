//! Everything the library hands to the outside world, word for word: the
//! argument vectors of the registry-copy tool, the unpack tool and the
//! decryption side-service, the key-provider config file's contents, and the
//! environment settings a pull needs.

use vstd::prelude::*;
use vstd::string::StringExecFns;

use crate::paths::bundle_dir;
use crate::paths::bundle_dir_spec;
use crate::paths::oci_layout_dir;
use crate::paths::oci_layout_dir_spec;

verus! {

pub open spec fn opt_str_view(o: Option<&str>) -> Option<Seq<char>> {
    match o {
        Some(s) => Some(s@),
        None => None,
    }
}

/// The decryption-key argument: names the side-service as the key provider.
pub open spec fn decryption_key_arg_spec(kbc_params: Seq<char>) -> Seq<char> {
    "provider:attestation-agent:"@ + kbc_params
}

pub fn decryption_key_arg(kbc_params: &str) -> (r: String)
    ensures
        r@ == decryption_key_arg_spec(kbc_params@),
{
    let mut s = String::from_str("provider:attestation-agent:");
    s.append(kbc_params);
    s
}

/// The arguments of the registry-copy invocation: copy from the registry
/// into the staging OCI layout, stripping signatures (the unpack tool cannot
/// consume signed images); credentials and a signature policy only when
/// given, an allow-all policy otherwise; a decryption-key argument only when
/// key-broker parameters are set.
pub open spec fn skopeo_copy_args_spec(
    image: Seq<char>,
    cid: Seq<char>,
    source_creds: Option<Seq<char>>,
    policy_path: Option<Seq<char>>,
    kbc_params: Seq<char>,
) -> Seq<Seq<char>> {
    let base = seq![
        "copy"@,
        "docker://"@ + image,
        "oci://"@ + oci_layout_dir_spec(cid) + ":latest"@,
        "--remove-signatures"@,
    ];
    let with_creds = match source_creds {
        Some(c) => base + seq!["--src-creds"@, c],
        None => base,
    };
    let with_policy = match policy_path {
        Some(p) => with_creds + seq!["--policy"@, p],
        None => with_creds + seq!["--insecure-policy"@],
    };
    if kbc_params.len() > 0 {
        with_policy + seq!["--decryption-key"@, decryption_key_arg_spec(kbc_params)]
    } else {
        with_policy
    }
}

pub fn skopeo_copy_args(
    image: &str,
    cid: &str,
    source_creds: Option<&str>,
    policy_path: Option<&str>,
    kbc_params: &str,
) -> (r: Vec<String>)
    ensures
        r.deep_view() == skopeo_copy_args_spec(
            image@,
            cid@,
            opt_str_view(source_creds),
            opt_str_view(policy_path),
            kbc_params@,
        ),
{
    let mut r: Vec<String> = Vec::new();
    r.push(String::from_str("copy"));
    let mut source = String::from_str("docker://");
    source.append(image);
    r.push(source);
    let mut target = String::from_str("oci://");
    target.append(oci_layout_dir(cid).as_str());
    target.append(":latest");
    r.push(target);
    r.push(String::from_str("--remove-signatures"));
    match source_creds {
        Some(c) => {
            r.push(String::from_str("--src-creds"));
            r.push(String::from_str(c));
        },
        None => {},
    }
    match policy_path {
        Some(p) => {
            r.push(String::from_str("--policy"));
            r.push(String::from_str(p));
        },
        None => {
            r.push(String::from_str("--insecure-policy"));
        },
    }
    if !kbc_params.is_empty() {
        r.push(String::from_str("--decryption-key"));
        r.push(decryption_key_arg(kbc_params));
    }
    proof {
        assert(r.deep_view() =~~= skopeo_copy_args_spec(
            image@,
            cid@,
            opt_str_view(source_creds),
            opt_str_view(policy_path),
            kbc_params@,
        ));
    }
    r
}

/// The arguments of the unpack invocation: materialize the staged OCI layout
/// into the final bundle directory.
pub open spec fn umoci_unpack_args_spec(cid: Seq<char>) -> Seq<Seq<char>> {
    seq!["unpack"@, "--image"@, oci_layout_dir_spec(cid), bundle_dir_spec(cid)]
}

pub fn umoci_unpack_args(cid: &str) -> (r: Vec<String>)
    ensures
        r.deep_view() == umoci_unpack_args_spec(cid@),
{
    let mut r: Vec<String> = Vec::new();
    r.push(String::from_str("unpack"));
    r.push(String::from_str("--image"));
    r.push(oci_layout_dir(cid));
    r.push(bundle_dir(cid));
    proof {
        assert(r.deep_view() =~~= umoci_unpack_args_spec(cid@));
    }
    r
}

/// The two fixed local endpoints the side-service listens on: key-unwrap
/// requests, and generic resource retrieval.
pub open spec fn side_service_args_spec() -> Seq<Seq<char>> {
    seq![
        "--keyprovider_sock"@,
        "127.0.0.1:50000"@,
        "--getresource_sock"@,
        "127.0.0.1:50001"@,
    ]
}

pub fn side_service_args() -> (r: Vec<String>)
    ensures
        r.deep_view() == side_service_args_spec(),
{
    let mut r: Vec<String> = Vec::new();
    r.push(String::from_str("--keyprovider_sock"));
    r.push(String::from_str("127.0.0.1:50000"));
    r.push(String::from_str("--getresource_sock"));
    r.push(String::from_str("127.0.0.1:50001"));
    proof {
        assert(r.deep_view() =~~= side_service_args_spec());
    }
    r
}

/// Contents of the key-provider config file: the one provider an encrypted
/// image must name, bound to the side-service's key-unwrap endpoint.
/// Regenerated (overwritten) on every side-service startup.
pub open spec fn ocicrypt_config_contents_spec() -> Seq<char> {
    "{\"key-providers\":{\"attestation-agent\":{\"grpc\":\"127.0.0.1:50000\"}}}"@
}

pub fn ocicrypt_config_contents() -> (r: String)
    ensures
        r@ == ocicrypt_config_contents_spec(),
{
    String::from_str("{\"key-providers\":{\"attestation-agent\":{\"grpc\":\"127.0.0.1:50000\"}}}")
}

/// One environment variable the driver must set before network access.
pub struct EnvSetting {
    pub name: String,
    pub value: String,
}

/// The per-pull environment: the key-provider config path always, and the
/// proxy variables exactly when configuration sets them. Idempotent per
/// process, safe to set redundantly.
pub open spec fn pull_env_spec(https_proxy: Seq<char>, no_proxy: Seq<char>) -> Seq<
    (Seq<char>, Seq<char>),
> {
    let base = seq![("OCICRYPT_KEYPROVIDER_CONFIG"@, "/tmp/ocicrypt_config.json"@)];
    let with_https = if https_proxy.len() > 0 {
        base + seq![("HTTPS_PROXY"@, https_proxy)]
    } else {
        base
    };
    if no_proxy.len() > 0 {
        with_https + seq![("NO_PROXY"@, no_proxy)]
    } else {
        with_https
    }
}

pub fn pull_env_settings(https_proxy: &str, no_proxy: &str) -> (r: Vec<EnvSetting>)
    ensures
        r@.map_values(|e: EnvSetting| (e.name@, e.value@)) == pull_env_spec(
            https_proxy@,
            no_proxy@,
        ),
{
    let mut r: Vec<EnvSetting> = Vec::new();
    r.push(
        EnvSetting {
            name: String::from_str("OCICRYPT_KEYPROVIDER_CONFIG"),
            value: String::from_str("/tmp/ocicrypt_config.json"),
        },
    );
    if !https_proxy.is_empty() {
        r.push(
            EnvSetting {
                name: String::from_str("HTTPS_PROXY"),
                value: String::from_str(https_proxy),
            },
        );
    }
    if !no_proxy.is_empty() {
        r.push(
            EnvSetting { name: String::from_str("NO_PROXY"), value: String::from_str(no_proxy) },
        );
    }
    proof {
        assert(r@.map_values(|e: EnvSetting| (e.name@, e.value@)) =~~= pull_env_spec(
            https_proxy@,
            no_proxy@,
        ));
    }
    r
}

/// The one process-wide setting made at construction: where the embedded
/// pull client keeps image layers.
pub fn startup_env_setting() -> (r: EnvSetting)
    ensures
        r.name@ == "CC_IMAGE_WORK_DIR"@,
        r.value@ == "/run/image/"@,
{
    EnvSetting {
        name: String::from_str("CC_IMAGE_WORK_DIR"),
        value: String::from_str("/run/image/"),
    }
}

} // verus!
