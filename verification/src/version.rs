//! Version strings of the program.

use vstd::prelude::*;
use vstd::string::*;
use vstd::utf8::*;

verus! {

/// What the build knows about the program: its release version, the commit it was
/// built from, and whether it is a canary build.
pub struct BuildInfo {
    pub semver: String,
    pub git_commit_hash: String,
    pub canary: bool,
}

/// Number of bytes of the commit hash that a canary version shows.
pub const SHORT_HASH_LEN: usize = 7;

/// The first bytes of the commit hash, as text.
pub open spec fn short_hash(hash: Seq<char>) -> Seq<char> {
    decode_utf8(encode_utf8(hash).subrange(0, SHORT_HASH_LEN as int))
}

impl BuildInfo {
    /// The commit hash can be cut where a canary version cuts it.
    pub open spec fn wf(&self) -> bool {
        self.canary ==> is_char_boundary(encode_utf8(self.git_commit_hash@), SHORT_HASH_LEN as int)
    }

    /// The short version: the release version, followed in a canary build by `+` and
    /// the short commit hash.
    pub open spec fn short_version(&self) -> Seq<char> {
        if self.canary {
            self.semver@ + "+"@ + short_hash(self.git_commit_hash@)
        } else {
            self.semver@
        }
    }

    /// Whether the commit hash can be cut where a canary version cuts it.
    pub fn is_wf(&self) -> (r: bool)
        ensures
            r == self.wf(),
    {
        !self.canary || self.git_commit_hash.as_str().is_char_boundary(SHORT_HASH_LEN)
    }
}

/// The short version of the program.
pub fn denog_short(build: &BuildInfo) -> (r: String)
    requires
        build.wf(),
    ensures
        r@ == build.short_version(),
{
    let semver = build.semver.clone();
    if build.canary {
        let (hash, _) = build.git_commit_hash.as_str().split_at(SHORT_HASH_LEN);
        proof {
            encode_utf8_decode_utf8(hash@);
        }
        semver.concat("+").concat(hash)
    } else {
        semver
    }
}

/// The version with the program's name in front, for where it must not be taken for
/// another program's version.
pub fn denog_long(build: &BuildInfo) -> (r: String)
    requires
        build.wf(),
    ensures
        r@ == "denog-"@ + build.short_version(),
{
    String::from_str("denog-").concat(denog_short(build).as_str())
}

/// Whether this is a canary build.
pub fn is_canary(build: &BuildInfo) -> (r: bool)
    ensures
        r == build.canary,
{
    build.canary
}

/// The commit hash in a canary build, the release version otherwise.
pub fn release_version_or_canary_commit_hash(build: &BuildInfo) -> (r: &str)
    ensures
        r@ == (if build.canary {
            build.git_commit_hash@
        } else {
            build.semver@
        }),
{
    if is_canary(build) {
        build.git_commit_hash.as_str()
    } else {
        build.semver.as_str()
    }
}

/// What the program calls itself when it makes a request over the network.
pub fn get_user_agent(build: &BuildInfo) -> (r: String)
    requires
        build.wf(),
    ensures
        r@ == "Deno/"@ + "denog-"@ + build.short_version(),
{
    String::from_str("Deno/").concat(denog_long(build).as_str())
}

} // verus!
