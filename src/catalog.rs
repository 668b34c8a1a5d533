use std::collections::BTreeMap;

use vstd::prelude::*;
use vstd::string::*;

use crate::resolver::ModSource;

verus! {

/// Base address of the remote build catalog.
pub const LAUNCHER_API: &'static str = "https://api.liquidbounce.net";

/// One compiled artifact set, as listed by the catalog.
pub struct Build {
    pub build_id: u32,
    pub commit_id: String,
    pub branch: String,
    pub lb_version: String,
    pub mc_version: String,
    pub message: String,
    pub url: String,
    pub fabric_api_version: String,
    pub fabric_loader_version: String,
    pub kotlin_version: String,
    pub kotlin_mod_version: String,
}

/// Everything needed to run one build: the build, its loader, its mods and
/// the repositories (name to base address) the mods are fetched from.
pub struct LaunchManifest {
    pub build: Build,
    pub loader: LoaderVersion,
    pub mods: Vec<LoaderMod>,
    pub repositories: BTreeMap<String, String>,
}

/// One mod of a manifest.
pub struct LoaderMod {
    pub required: bool,
    pub default: bool,
    pub name: String,
    pub source: ModSource,
}

/// The mod-loading subsystem of a manifest, with its manifest file name and
/// mod directory name.
pub struct LoaderVersion {
    pub subsystem: LoaderSubsystem,
    pub launcher_manifest: String,
    pub mod_directory: String,
}

/// The two mod-loading subsystems; there is no fallback.
#[derive(PartialEq, Eq, Structural, Clone, Copy, Debug)]
pub enum LoaderSubsystem {
    Fabric,
    Forge,
}

/// The subsystem a textual tag names: `fabric` or `forge`, nothing else.
pub open spec fn subsystem_of_tag(tag: Seq<char>) -> Option<LoaderSubsystem> {
    if tag == seq!['f', 'a', 'b', 'r', 'i', 'c'] {
        Some(LoaderSubsystem::Fabric)
    } else if tag == seq!['f', 'o', 'r', 'g', 'e'] {
        Some(LoaderSubsystem::Forge)
    } else {
        None
    }
}

/// Whether `s` spells exactly the literal `lit`.
pub fn text_equals(s: &str, lit: &str) -> (r: bool)
    ensures
        r == (s@ == lit@),
{
    let n = s.unicode_len();
    let m = lit.unicode_len();
    if n != m {
        return false;
    }
    let mut i: usize = 0;
    while i < n
        invariant
            n == s@.len(),
            m == lit@.len(),
            n == m,
            i <= n,
            s@.subrange(0, i as int) == lit@.subrange(0, i as int),
        decreases n - i,
    {
        if s.get_char(i) != lit.get_char(i) {
            assert(s@[i as int] != lit@[i as int]);
            return false;
        }
        assert(s@.subrange(0, i + 1) =~= s@.subrange(0, i as int).push(s@[i as int]));
        assert(lit@.subrange(0, i + 1) =~= lit@.subrange(0, i as int).push(lit@[i as int]));
        i += 1;
    }
    assert(s@ =~= s@.subrange(0, n as int));
    assert(lit@ =~= lit@.subrange(0, n as int));
    true
}

impl LoaderSubsystem {
    /// Decodes a subsystem tag; an unknown tag is refused.
    pub fn from_tag(tag: &str) -> (r: Option<LoaderSubsystem>)
        ensures
            r == subsystem_of_tag(tag@),
    {
        proof {
            reveal_strlit("fabric");
            reveal_strlit("forge");
            assert("fabric"@ =~= seq!['f', 'a', 'b', 'r', 'i', 'c']);
            assert("forge"@ =~= seq!['f', 'o', 'r', 'g', 'e']);
        }
        if text_equals(tag, "fabric") {
            Some(LoaderSubsystem::Fabric)
        } else if text_equals(tag, "forge") {
            Some(LoaderSubsystem::Forge)
        } else {
            None
        }
    }
}

/// Decimal digits of `n`, most significant first, without leading zeros.
pub open spec fn decimal(n: nat) -> Seq<char>
    decreases n,
{
    let digit = seq!['0', '1', '2', '3', '4', '5', '6', '7', '8', '9'][(n % 10) as int];
    if n < 10 {
        seq![digit]
    } else {
        decimal(n / 10).push(digit)
    }
}

/// Relies on `u32`'s `Display` (through `ToString::to_string`): an unsigned
/// integer is written in plain decimal.
#[verifier::external_body]
fn decimal_text(n: u32) -> (r: String)
    ensures
        r@ == decimal(n as nat),
{
    n.to_string()
}

/// The endpoints of the remote build catalog. Fetching is done by the
/// caller; this type only computes the addresses.
pub struct LauncherApi;

impl LauncherApi {
    /// `{base}/api/v1/version/branches`: the list of branch names.
    pub fn branches_url() -> (r: String)
        ensures
            r@ == LAUNCHER_API@ + "/api/v1/version/branches"@,
    {
        let mut r = String::from_str(LAUNCHER_API);
        r.append("/api/v1/version/branches");
        r
    }

    /// `{base}/api/v1/version/builds`: every build of every branch.
    pub fn all_builds_url() -> (r: String)
        ensures
            r@ == LAUNCHER_API@ + "/api/v1/version/builds"@,
    {
        let mut r = String::from_str(LAUNCHER_API);
        r.append("/api/v1/version/builds");
        r
    }

    /// `{base}/api/v1/version/builds/{branch}`: the builds of one branch.
    pub fn builds_url(branch: &str) -> (r: String)
        ensures
            r@ == LAUNCHER_API@ + "/api/v1/version/builds/"@ + branch@,
    {
        let mut r = String::from_str(LAUNCHER_API);
        r.append("/api/v1/version/builds/");
        r.append(branch);
        r
    }

    /// `{base}/api/v1/version/launch/{build_id}`: the launch manifest of a build.
    pub fn manifest_url(build_id: u32) -> (r: String)
        ensures
            r@ == LAUNCHER_API@ + "/api/v1/version/launch/"@ + decimal(build_id as nat),
    {
        let mut r = String::from_str(LAUNCHER_API);
        r.append("/api/v1/version/launch/");
        let id = decimal_text(build_id);
        r.append(id.as_str());
        r
    }
}

} // verus!
