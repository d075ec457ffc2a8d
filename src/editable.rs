use vstd::prelude::*;

use crate::dist::{InstalledDistribution, ManifestEntry, Requirement, SourceIdentity};
use crate::version::Version;

verus! {

/// The `[project]` table of a local project's build configuration, as far as
/// it matters here: the fields it declares as dynamic, if it says.
#[derive(Debug)]
pub struct ProjectTable {
    pub dynamic: Option<Vec<String>>,
}

/// Metadata must come from the build backend unless the project table is
/// present and declares no dynamic field.
pub open spec fn dynamic_spec(project: Option<ProjectTable>) -> bool {
    match project {
        None => true,
        Some(t) => match t.dynamic {
            Some(d) => d@.len() > 0,
            None => false,
        },
    }
}

/// Whether a local project's metadata is dynamic, given its `[project]` table
/// (`None` when the build configuration is absent, unreadable, or has no such table).
pub fn is_dynamic(project: &Option<ProjectTable>) -> (r: bool)
    ensures
        r == dynamic_spec(*project),
{
    match project {
        None => true,
        Some(t) => match &t.dynamic {
            Some(d) => d.len() > 0,
            None => false,
        },
    }
}

/// A local requirement to install in editable mode, before it is built.
#[derive(Debug)]
pub struct ResolvedEditable {
    pub path: String,
    /// A fingerprint of the source tree's content.
    pub fingerprint: u64,
    /// Whether the exact version is only known after a build.
    pub dynamic: bool,
}

/// An editable requirement once built: its metadata is now known.
#[derive(Debug)]
pub struct BuiltEditable {
    pub path: String,
    pub fingerprint: u64,
    pub name: String,
    pub version: Version,
}

/// An editable requirement placed into an environment.
#[derive(Debug)]
pub struct InstalledEditable {
    pub built: BuiltEditable,
    pub installed: InstalledDistribution,
}

impl ResolvedEditable {
    /// The editable, built: `name` and `version` are the metadata that the build produced.
    pub fn into_built(self, name: String, version: Version) -> (r: BuiltEditable)
        ensures
            r.path@ == self.path@,
            r.fingerprint == self.fingerprint,
            r.name@ == name@,
            r.version.release@ == version.release@,
    {
        BuiltEditable { path: self.path, fingerprint: self.fingerprint, name, version }
    }
}

impl BuiltEditable {
    /// The requirement that this build answers: the project at this path, with
    /// this content, at the version built.
    pub fn requirement(&self) -> (r: Requirement)
        ensures
            r.name@ == self.name@,
            r.version matches Some(v) && v.release@ == self.version.release@,
            r.source matches SourceIdentity::Editable { path, fingerprint } && path@ == self.path@
                && fingerprint == self.fingerprint,
    {
        Requirement {
            name: self.name.clone(),
            version: Some(self.version.duplicate()),
            source: SourceIdentity::Editable {
                path: self.path.clone(),
                fingerprint: self.fingerprint,
            },
        }
    }

    /// The editable, installed: `manifest` lists the files placed (for an
    /// editable, the path-redirect record and the metadata).
    pub fn into_installed(self, manifest: Vec<ManifestEntry>) -> (r: InstalledEditable)
        ensures
            r.installed.name@ == self.name@,
            r.installed.version.release@ == self.version.release@,
            r.installed.metadata_readable,
            r.installed.manifest@ == manifest@,
            r.installed.source matches SourceIdentity::Editable { path, fingerprint } && path@
                == self.path@ && fingerprint == self.fingerprint,
            r.built.path@ == self.path@ && r.built.fingerprint == self.fingerprint,
            r.built.name@ == self.name@ && r.built.version.release@ == self.version.release@,
    {
        let installed = InstalledDistribution {
            name: self.name.clone(),
            version: self.version.duplicate(),
            source: SourceIdentity::Editable {
                path: self.path.clone(),
                fingerprint: self.fingerprint,
            },
            metadata_readable: true,
            manifest,
        };
        InstalledEditable { built: self, installed }
    }
}

} // verus!
