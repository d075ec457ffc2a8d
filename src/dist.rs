use vstd::prelude::*;

use crate::version::{Version, release_matches};

verus! {

/// Where a distribution comes from.
#[derive(Debug)]
pub enum SourceIdentity {
    /// A package index, identified by name and version alone.
    Registry,
    /// A direct URL to an archive.
    DirectUrl { url: String },
    /// A local source tree or archive, with a fingerprint of its content.
    Path { path: String, fingerprint: u64 },
    /// A local source tree installed in editable mode, with a fingerprint of its content.
    Editable { path: String, fingerprint: u64 },
}

/// The two sources name the same place: the same kind, and the same URL or path.
pub open spec fn same_origin(a: SourceIdentity, b: SourceIdentity) -> bool {
    match (a, b) {
        (SourceIdentity::Registry, SourceIdentity::Registry) => true,
        (SourceIdentity::DirectUrl { url: x }, SourceIdentity::DirectUrl { url: y }) => x@ == y@,
        (SourceIdentity::Path { path: x, .. }, SourceIdentity::Path { path: y, .. }) => x@ == y@,
        (
            SourceIdentity::Editable { path: x, .. },
            SourceIdentity::Editable { path: y, .. },
        ) => x@ == y@,
        _ => false,
    }
}

/// The content fingerprints agree, where the sources carry one.
pub open spec fn same_content(a: SourceIdentity, b: SourceIdentity) -> bool {
    match (a, b) {
        (
            SourceIdentity::Path { fingerprint: x, .. },
            SourceIdentity::Path { fingerprint: y, .. },
        ) => x == y,
        (
            SourceIdentity::Editable { fingerprint: x, .. },
            SourceIdentity::Editable { fingerprint: y, .. },
        ) => x == y,
        _ => true,
    }
}

impl SourceIdentity {
    pub fn same_origin(&self, other: &SourceIdentity) -> (r: bool)
        ensures
            r == same_origin(*self, *other),
    {
        match (self, other) {
            (SourceIdentity::Registry, SourceIdentity::Registry) => true,
            (SourceIdentity::DirectUrl { url: x }, SourceIdentity::DirectUrl { url: y }) => *x
                == *y,
            (SourceIdentity::Path { path: x, .. }, SourceIdentity::Path { path: y, .. }) => *x
                == *y,
            (
                SourceIdentity::Editable { path: x, .. },
                SourceIdentity::Editable { path: y, .. },
            ) => *x == *y,
            _ => false,
        }
    }

    pub fn same_content(&self, other: &SourceIdentity) -> (r: bool)
        ensures
            r == same_content(*self, *other),
    {
        match (self, other) {
            (
                SourceIdentity::Path { fingerprint: x, .. },
                SourceIdentity::Path { fingerprint: y, .. },
            ) => *x == *y,
            (
                SourceIdentity::Editable { fingerprint: x, .. },
                SourceIdentity::Editable { fingerprint: y, .. },
            ) => *x == *y,
            _ => true,
        }
    }
}

/// A resolved requirement: a normalized project name, an optional exact
/// version, and the source it must come from.
#[derive(Debug)]
pub struct Requirement {
    pub name: String,
    pub version: Option<Version>,
    pub source: SourceIdentity,
}

/// The version `v` meets the requirement's version, if it pins one.
pub open spec fn version_allowed(req: Requirement, v: Version) -> bool {
    match req.version {
        Some(p) => release_matches(p.release@, v.release@),
        None => true,
    }
}

impl Requirement {
    pub fn allows_version(&self, v: &Version) -> (r: bool)
        ensures
            r == version_allowed(*self, *v),
    {
        match &self.version {
            Some(p) => p.same_release(v),
            None => true,
        }
    }
}

/// One file placed by an install, with the digest of its content at that time.
#[derive(Debug)]
pub struct ManifestEntry {
    pub path: String,
    pub digest: u64,
}

/// A distribution found in an environment.
#[derive(Debug)]
pub struct InstalledDistribution {
    pub name: String,
    pub version: Version,
    pub source: SourceIdentity,
    /// Whether its installed metadata could be parsed.
    pub metadata_readable: bool,
    pub manifest: Vec<ManifestEntry>,
}

/// A built wheel present in the local artifact cache.
#[derive(Debug)]
pub struct CachedWheel {
    pub name: String,
    pub version: Version,
    pub source: SourceIdentity,
}

/// The cached wheel is an artifact of exactly what the requirement asks for.
pub open spec fn wheel_matches(req: Requirement, w: CachedWheel) -> bool {
    &&& req.name@ == w.name@
    &&& same_origin(req.source, w.source)
    &&& same_content(req.source, w.source)
    &&& version_allowed(req, w.version)
}

impl CachedWheel {
    pub fn matches(&self, req: &Requirement) -> (r: bool)
        ensures
            r == wheel_matches(*req, *self),
    {
        req.name == self.name && req.source.same_origin(&self.source)
            && req.source.same_content(&self.source) && req.allows_version(&self.version)
    }
}

} // verus!
