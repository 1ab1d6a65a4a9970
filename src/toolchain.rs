use vstd::prelude::*;
use vstd::string::StringExecFns;
use crate::BuildpackError;

verus! {

pub const ARCH: &'static str = "x86_64";
pub const VENDOR: &'static str = "unknown";
pub const OS: &'static str = "linux";
pub const ENV: &'static str = "gnu";

/// The canonical distribution name of a toolchain release.
pub open spec fn dist_name(version: Seq<char>) -> Seq<char> {
    "rust-"@ + version + "-"@ + ARCH@ + "-"@ + VENDOR@ + "-"@ + OS@ + "-"@ + ENV@
}

/// Where the archive of a toolchain release is served.
pub open spec fn archive_url(version: Seq<char>) -> Seq<char> {
    "https://static.rust-lang.org/dist/"@ + dist_name(version) + ".tar.gz"@
}

/// How a layer is used by the host runtime.
#[derive(Debug, PartialEq, Eq, Structural)]
pub struct LayerTypes {
    pub launch: bool,
    pub build: bool,
    pub cache: bool,
}

/// What to do with a layer left by an earlier run.
#[derive(Debug, PartialEq, Eq, Structural)]
pub enum ExistingLayerStrategy {
    Keep,
    Recreate,
}

/// What the provisioner does in one run.
#[derive(Debug, PartialEq, Eq, Structural)]
pub enum ToolchainAction {
    /// Resolve, fetch, extract and install a toolchain.
    Install,
    /// Use the layer from an earlier run as it is.
    Reuse,
}

/// The toolchain layer: cached, visible to later build steps, not at launch.
pub struct RustToolchain;

impl RustToolchain {
    pub fn types(&self) -> (r: LayerTypes)
        ensures
            r == (LayerTypes { launch: false, build: true, cache: true }),
    {
        LayerTypes { launch: false, build: true, cache: true }
    }

    /// A layer from an earlier run is always kept, with no comparison of its content.
    pub fn existing_layer_strategy(&self) -> (r: ExistingLayerStrategy)
        ensures
            r == ExistingLayerStrategy::Keep,
    {
        ExistingLayerStrategy::Keep
    }

    /// Whether this run installs a toolchain or reuses the cached layer.
    pub fn action(&self, layer_exists: bool) -> (r: ToolchainAction)
        ensures
            r == spec_action(layer_exists),
    {
        if layer_exists {
            match self.existing_layer_strategy() {
                ExistingLayerStrategy::Keep => ToolchainAction::Reuse,
                ExistingLayerStrategy::Recreate => ToolchainAction::Install,
            }
        } else {
            ToolchainAction::Install
        }
    }
}

/// The version to install: the pinned one if any, else the most recent stable
/// release that the release index listed; an empty index is fatal.
pub fn resolve_version(pinned: Option<String>, most_recent: Option<String>) -> (r: Result<
    String,
    BuildpackError,
>)
    ensures
        pinned.is_some() ==> r.is_ok() && r.unwrap()@ == pinned.unwrap()@,
        pinned.is_none() && most_recent.is_some() ==> r.is_ok() && r.unwrap()@
            == most_recent.unwrap()@,
        pinned.is_none() && most_recent.is_none() ==> r == Err::<String, BuildpackError>(
            BuildpackError::ReleaseIndex,
        ),
{
    match pinned {
        Some(p) => Ok(p),
        None => match most_recent {
            Some(v) => Ok(v),
            None => Err(BuildpackError::ReleaseIndex),
        },
    }
}

/// The distribution name of a release, which is also the top directory of its archive.
pub fn rust_long(version: &str) -> (r: String)
    ensures
        r@ == dist_name(version@),
{
    let mut s = String::from_str("rust-");
    s.append(version);
    s.append("-");
    s.append(ARCH);
    s.append("-");
    s.append(VENDOR);
    s.append("-");
    s.append(OS);
    s.append("-");
    s.append(ENV);
    s
}

/// The URL of the archive of a release.
pub fn tarball_url(version: &str) -> (r: String)
    ensures
        r@ == archive_url(version@),
{
    let mut s = String::from_str("https://static.rust-lang.org/dist/");
    let name = rust_long(version);
    s.append(name.as_str());
    s.append(".tar.gz");
    s
}

/// The installer's arguments: install into the layer, with an empty prefix.
pub fn installer_args(layer_path: &str) -> (r: Vec<String>)
    ensures
        r@.len() == 2,
        r@[0]@ == "--destdir="@ + layer_path@,
        r@[1]@ == "--prefix=/"@,
{
    let mut dest = String::from_str("--destdir=");
    dest.append(layer_path);
    let mut v: Vec<String> = Vec::new();
    v.push(dest);
    v.push(String::from_str("--prefix=/"));
    v
}

/// The executable search path once the toolchain layer is applied: the
/// layer's `bin` directory comes first, before any ambient path.
pub open spec fn layered_path(layer: Seq<char>, ambient: Option<Seq<char>>) -> Seq<char> {
    match ambient {
        Some(p) => layer + "/bin:"@ + p,
        None => layer + "/bin"@,
    }
}

/// The provisioner's decision in a run, by whether its layer already exists.
pub open spec fn spec_action(layer_exists: bool) -> ToolchainAction {
    if layer_exists {
        ToolchainAction::Reuse
    } else {
        ToolchainAction::Install
    }
}

/// The search path that later stages see, with the toolchain's `bin` first.
pub fn toolchain_path(layer_path: &str, ambient: &Option<String>) -> (r: String)
    ensures
        r@ == layered_path(
            layer_path@,
            match ambient {
                Some(p) => Some(p@),
                None => None,
            },
        ),
{
    let mut s = String::from_str(layer_path);
    match ambient {
        Some(p) => {
            s.append("/bin:");
            s.append(p.as_str());
        },
        None => {
            s.append("/bin");
        },
    }
    s
}

/// The provisioned search path, which target resolution requires: its
/// absence is fatal, never replaced by a default.
pub fn require_toolchain_path(path: Option<String>) -> (r: Result<String, BuildpackError>)
    ensures
        path.is_some() ==> r.is_ok() && r.unwrap()@ == path.unwrap()@,
        path.is_none() ==> r == Err::<String, BuildpackError>(BuildpackError::RustToolchainPath),
{
    match path {
        Some(p) => Ok(p),
        None => Err(BuildpackError::RustToolchainPath),
    }
}

/// A run over an existing toolchain layer reuses it and so fetches and
/// installs nothing; only a missing layer leads to an install.
pub proof fn lemma_reuse_skips_install(layer_exists: bool)
    ensures
        spec_action(layer_exists) == ToolchainAction::Reuse <==> layer_exists,
        spec_action(layer_exists) == ToolchainAction::Install <==> !layer_exists,
{
}

} // verus!
