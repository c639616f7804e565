//! A package as described by the first entry of its changelog.
use vstd::prelude::*;

use crate::text::{decimal, decimal_text};
use crate::version::PackageVersion;

verus! {

/// A package: its name, its version and its source tree.
#[derive(Debug, Clone)]
pub struct PackageDescription {
    pub name: String,
    pub version: PackageVersion,
    pub source_dir: String,
}

/// Why a changelog does not describe a package.
#[derive(Debug, Clone, PartialEq, Eq)]
pub enum PackageError {
    /// The changelog could not be parsed; the text says why.
    Unparsable(String),
    /// The changelog has no entry.
    EmptyChangelog,
    /// The newest entry names no package.
    MissingName,
    /// The newest entry has no valid version.
    MissingVersion,
}

/// A version as a changelog entry holds it: epoch, upstream version, revision.
#[derive(Debug, Clone)]
pub struct EntryVersion {
    pub epoch: Option<u32>,
    pub upstream_version: String,
    pub debian_revision: Option<String>,
}

impl PackageDescription {
    /// The package that the newest changelog entry describes, given the entry's
    /// package name and version (`None` where the entry lacks them), for the source
    /// tree `dir`. A missing epoch is `0`, a missing revision empty.
    pub fn from_entry(name: Option<String>, version: Option<EntryVersion>, dir: &str) -> (r: Result<
        Self,
        PackageError,
    >)
        ensures
            name is None ==> r == Err::<Self, PackageError>(PackageError::MissingName),
            name is Some && version is None ==> r == Err::<Self, PackageError>(
                PackageError::MissingVersion,
            ),
            name is Some && version is Some ==> (r matches Ok(p) && p.name@ == name->Some_0@
                && p.source_dir@ == dir@ && p.version.spec_epoch() == (match version->Some_0.epoch {
                Some(e) => decimal(e as nat),
                None => "0"@,
            }) && p.version.spec_upstream() == version->Some_0.upstream_version@
                && p.version.spec_revision() == (match version->Some_0.debian_revision {
                Some(v) => v@,
                None => Seq::empty(),
            })),
    {
        let name = match name {
            Some(n) => n,
            None => return Err(PackageError::MissingName),
        };
        let v = match version {
            Some(v) => v,
            None => return Err(PackageError::MissingVersion),
        };
        let epoch = match v.epoch {
            Some(e) => decimal_text(e),
            None => String::from_str("0"),
        };
        let revision = match v.debian_revision {
            Some(d) => d,
            None => String::new(),
        };
        Ok(PackageDescription {
            name,
            version: PackageVersion::new(epoch, v.upstream_version, revision),
            source_dir: String::from_str(dir),
        })
    }
}

} // verus!
