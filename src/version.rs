//! Debian package versions: `[epoch:]upstream[-revision]`.
use vstd::prelude::*;

use crate::text::{contains_char, same_text};

verus! {

/// Everything before the last `-` (the epoch and upstream version) as group 1.
pub const EPOCH_UPSTREAM_PATTERN: &'static str = r"^(.*?)(-[^-]*)?$";

/// The leading digits before a `:` as group 1.
pub const EPOCH_PATTERN: &'static str = r"^([0-9]+):.*$";

/// What follows an optional `<digits>:` prefix as group 2.
pub const UPSTREAM_PATTERN: &'static str = r"^([0-9]*:)?(.*?)$";

/// What follows the last `-` as group 2.
pub const REVISION_PATTERN: &'static str = r"^.*?(-([^-]*))?$";

/// Whether `pattern` is a regular expression that the regex crate compiles.
pub uninterp spec fn regex_compiles(pattern: Seq<char>) -> bool;

/// `text` with the leftmost-first match of the regular expression `pattern` replaced
/// by `rep`, in which `$n` stands for the `n`-th capture group.
pub uninterp spec fn regex_replace_first(pattern: Seq<char>, text: Seq<char>, rep: Seq<char>) -> Seq<
    char,
>;

/// Relies on regex::Regex::new, which compiles `pattern` or reports that it cannot,
/// and on Regex::replace, which replaces the leftmost-first match of the compiled
/// expression in `text` by `rep`, expanding `$n` to the `n`-th capture group.
#[verifier::external_body]
fn replace_first_match(pattern: &str, text: &str, rep: &str) -> (r: Option<String>)
    ensures
        r is Some <==> regex_compiles(pattern@),
        r matches Some(s) ==> s@ == regex_replace_first(pattern@, text@, rep@),
{
    match regex::Regex::new(pattern) {
        Ok(re) => Some(re.replace(text, rep).into_owned()),
        Err(_) => None,
    }
}

/// A version that could not be parsed.
#[derive(Debug, Clone, Copy, PartialEq, Eq)]
pub struct VersionParseError;

/// A Debian package version.
#[derive(Debug, Clone, PartialEq, Eq)]
pub struct PackageVersion {
    /// The distribution's override of the base version; `0` when there is none.
    epoch: String,
    /// The upstream version.
    upstream: String,
    /// The distribution's packaging revision; empty when there is none.
    revision: String,
}

/// What parsing `v` yields, once all expressions compile: the epoch (`0` when `v`
/// has no `:`), the upstream version and the revision.
pub open spec fn parsed_parts(v: Seq<char>) -> (Seq<char>, Seq<char>, Seq<char>) {
    let epoch_upstream = regex_replace_first(EPOCH_UPSTREAM_PATTERN@, v, "$1"@);
    let epoch = if !v.contains(':') {
        "0"@
    } else {
        regex_replace_first(EPOCH_PATTERN@, v, "$1"@)
    };
    (
        epoch,
        regex_replace_first(UPSTREAM_PATTERN@, epoch_upstream, "$2"@),
        regex_replace_first(REVISION_PATTERN@, v, "$2"@),
    )
}

/// Whether every expression that parsing `v` uses compiles.
pub open spec fn patterns_compile(v: Seq<char>) -> bool {
    &&& regex_compiles(EPOCH_UPSTREAM_PATTERN@)
    &&& (v.contains(':') ==> regex_compiles(EPOCH_PATTERN@))
    &&& regex_compiles(UPSTREAM_PATTERN@)
    &&& regex_compiles(REVISION_PATTERN@)
}

impl PackageVersion {
    pub closed spec fn spec_epoch(&self) -> Seq<char> {
        self.epoch@
    }

    pub closed spec fn spec_upstream(&self) -> Seq<char> {
        self.upstream@
    }

    pub closed spec fn spec_revision(&self) -> Seq<char> {
        self.revision@
    }

    /// The version with these parts.
    pub fn new(epoch: String, upstream: String, revision: String) -> (r: Self)
        ensures
            r.spec_epoch() == epoch@,
            r.spec_upstream() == upstream@,
            r.spec_revision() == revision@,
    {
        PackageVersion { epoch, upstream, revision }
    }

    /// Parses `version`. Fails only when one of the expressions does not compile.
    pub fn parse(version: &str) -> (r: Result<Self, VersionParseError>)
        ensures
            r is Ok <==> patterns_compile(version@),
            r matches Ok(v) ==> (v.spec_epoch(), v.spec_upstream(), v.spec_revision())
                == parsed_parts(version@),
    {
        let epoch_upstream = match replace_first_match(EPOCH_UPSTREAM_PATTERN, version, "$1") {
            Some(s) => s,
            None => return Err(VersionParseError),
        };
        let epoch = if !contains_char(version, ':') {
            String::from_str("0")
        } else {
            match replace_first_match(EPOCH_PATTERN, version, "$1") {
                Some(s) => s,
                None => return Err(VersionParseError),
            }
        };
        let upstream = match replace_first_match(UPSTREAM_PATTERN, epoch_upstream.as_str(), "$2") {
            Some(s) => s,
            None => return Err(VersionParseError),
        };
        let revision = match replace_first_match(REVISION_PATTERN, version, "$2") {
            Some(s) => s,
            None => return Err(VersionParseError),
        };
        Ok(PackageVersion::new(epoch, upstream, revision))
    }

    /// `[epoch:]upstream[-revision]`, leaving out an epoch of `0` and an empty revision.
    pub open spec fn spec_version(&self) -> Seq<char> {
        (if self.spec_epoch() != "0"@ {
            self.spec_epoch() + ":"@
        } else {
            Seq::empty()
        }) + self.spec_upstream() + (if self.spec_revision().len() > 0 {
            "-"@ + self.spec_revision()
        } else {
            Seq::empty()
        })
    }

    pub fn version(&self) -> (r: String)
        ensures
            r@ == self.spec_version(),
    {
        let mut ret = String::new();
        if !same_text(self.epoch.as_str(), "0") {
            ret.append(self.epoch.as_str());
            ret.append(":");
        }
        ret.append(self.upstream.as_str());
        if self.revision.as_str().unicode_len() > 0 {
            ret.append("-");
            ret.append(self.revision.as_str());
        }
        proof {
            assert(ret@ =~= self.spec_version());
        }
        ret
    }

    /// The epoch and upstream version, `epoch:upstream`; only the upstream version
    /// when the epoch is empty.
    pub fn epoch_upstream(&self) -> (r: String)
        ensures
            r@ == (if self.spec_epoch().len() > 0 {
                self.spec_epoch() + ":"@ + self.spec_upstream()
            } else {
                self.spec_upstream()
            }),
    {
        if self.epoch.as_str().unicode_len() > 0 {
            let mut r = self.epoch.clone();
            r.append(":");
            r.append(self.upstream.as_str());
            return r;
        }
        self.upstream.clone()
    }

    /// The upstream version and revision, `upstream-revision`; only the upstream
    /// version when the revision is empty.
    pub fn upstream_revision(&self) -> (r: String)
        ensures
            r@ == (if self.spec_revision().len() > 0 {
                self.spec_upstream() + "-"@ + self.spec_revision()
            } else {
                self.spec_upstream()
            }),
    {
        if self.revision.as_str().unicode_len() > 0 {
            let mut r = self.upstream.clone();
            r.append("-");
            r.append(self.revision.as_str());
            return r;
        }
        self.upstream.clone()
    }
}

impl std::str::FromStr for PackageVersion {
    type Err = VersionParseError;

    fn from_str(version: &str) -> (r: Result<Self, VersionParseError>)
        ensures
            r is Ok <==> patterns_compile(version@),
            r matches Ok(v) ==> (v.spec_epoch(), v.spec_upstream(), v.spec_revision())
                == parsed_parts(version@),
    {
        PackageVersion::parse(version)
    }
}

} // verus!
