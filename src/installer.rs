use vstd::prelude::*;

use crate::dist::{CachedWheel, InstalledDistribution, ManifestEntry, Requirement, wheel_matches};
use crate::satisfies::{SatisfiesResult, satisfies_spec};
use crate::site_packages::{SitePackages, has_name, unique_names};

verus! {

/// How the files of a wheel are placed into an environment.
#[derive(Debug, Clone, Copy, PartialEq, Eq, Structural)]
pub enum LinkMode {
    Copy,
    Hardlink,
    Symlink,
}

/// A file whose bytecode could not be compiled: reported, never a failed install.
#[derive(Debug)]
pub struct CompileError {
    pub path: String,
}

/// What an install committed: its record, how its files were placed, and the
/// files left without bytecode.
#[derive(Debug)]
pub struct InstallReport {
    pub installed: InstalledDistribution,
    pub link_mode: LinkMode,
    pub compile_errors: Vec<CompileError>,
}

/// The record of `wheel` once its files, listed with their digests in
/// `manifest`, are all in place.
pub open spec fn record_of(wheel: CachedWheel, manifest: Seq<ManifestEntry>) -> (
    Seq<char>,
    Seq<u64>,
    bool,
    Seq<ManifestEntry>,
) {
    (wheel.name@, wheel.version.release@, true, manifest)
}

/// Commit the install of `wheel` once its files are placed with `link_mode`:
/// the record lists every placed file with its digest, and bytecode errors
/// stay beside it.
pub fn commit_install(
    wheel: CachedWheel,
    link_mode: LinkMode,
    manifest: Vec<ManifestEntry>,
    compile_errors: Vec<CompileError>,
) -> (r: InstallReport)
    ensures
        (
            r.installed.name@,
            r.installed.version.release@,
            r.installed.metadata_readable,
            r.installed.manifest@,
        ) == record_of(wheel, manifest@),
        r.installed.source == wheel.source,
        r.link_mode == link_mode,
        r.compile_errors@ == compile_errors@,
{
    let installed = InstalledDistribution {
        name: wheel.name,
        version: wheel.version,
        source: wheel.source,
        metadata_readable: true,
        manifest,
    };
    InstallReport { installed, link_mode, compile_errors }
}

/// Installing a wheel that matches a requirement leaves a distribution that
/// satisfies it.
pub proof fn installed_wheel_satisfies(req: Requirement, wheel: CachedWheel, d: InstalledDistribution)
    requires
        wheel_matches(req, wheel),
        (d.name@, d.version.release@, d.metadata_readable) == (
            wheel.name@,
            wheel.version.release@,
            true,
        ),
        d.source == wheel.source,
    ensures
        satisfies_spec(req, d) == SatisfiesResult::Satisfied,
{
}

impl SitePackages {
    /// Record a newly installed distribution, in place of any distribution of
    /// the same project.
    pub fn add(&mut self, d: InstalledDistribution)
        requires
            old(self).well_formed(),
        ensures
            final(self).well_formed(),
            final(self).diagnostics@ == old(self).diagnostics@,
            has_name(old(self).distributions@, d.name@) ==> exists|k: int|
                0 <= k < old(self).distributions@.len() && old(self).distributions@[k].name@
                    == d.name@ && final(self).distributions@ == old(self).distributions@.update(
                    k,
                    d,
                ),
            !has_name(old(self).distributions@, d.name@) ==> final(self).distributions@
                == old(self).distributions@.push(d),
    {
        let ghost s = self.distributions@;
        match self.get(&d.name) {
            Some(k) => {
                let ghost dd = d;
                self.distributions.set(k, d);
                assert(self.distributions@ == s.update(k as int, dd));
                assert forall|a: int, b: int|
                    0 <= a < s.len() && 0 <= b < s.len() && a != b implies (
                    #[trigger] self.distributions@[a]).name@ != (
                    #[trigger] self.distributions@[b]).name@ by {
                    assert(s[a].name@ != s[b].name@);
                }
            },
            None => {
                self.distributions.push(d);
                assert(unique_names(self.distributions@));
            },
        }
    }

    /// Forget the distribution of the project `name`, once it is uninstalled.
    pub fn forget(&mut self, name: &String)
        requires
            old(self).well_formed(),
        ensures
            final(self).well_formed(),
            final(self).diagnostics@ == old(self).diagnostics@,
            !has_name(final(self).distributions@, name@),
            forall|k: int|
                0 <= k < old(self).distributions@.len() && (
                #[trigger] old(self).distributions@[k]).name@ != name@
                    ==> final(self).distributions@.contains(old(self).distributions@[k]),
            final(self).distributions@.len() + (if has_name(old(self).distributions@, name@) {
                1int
            } else {
                0
            }) == old(self).distributions@.len(),
    {
        let ghost s = self.distributions@;
        match self.get(name) {
            Some(k) => {
                self.distributions.remove(k);
                let ghost t = self.distributions@;
                assert forall|j: int| 0 <= j < t.len() implies t[j] == (if j < k {
                    s[j]
                } else {
                    s[j + 1]
                }) by {}
                assert forall|a: int, b: int|
                    0 <= a < t.len() && 0 <= b < t.len() && a != b implies (#[trigger] t[a]).name@
                    != (#[trigger] t[b]).name@ by {
                    let a2 = if a < k { a } else { a + 1 };
                    let b2 = if b < k { b } else { b + 1 };
                    assert(t[a] == s[a2] && t[b] == s[b2]);
                }
                assert forall|j: int| 0 <= j < t.len() implies (#[trigger] t[j]).name@ != name@ by {
                    let j2 = if j < k { j } else { j + 1 };
                    assert(t[j] == s[j2]);
                    assert(s[j2].name@ != s[k as int].name@);
                }
                assert forall|j: int|
                    0 <= j < s.len() && (#[trigger] s[j]).name@ != name@ implies t.contains(s[j]) by {
                    if j < k {
                        assert(t[j] == s[j]);
                    } else {
                        assert(t[j - 1] == s[j]);
                    }
                }
            },
            None => {
                assert forall|j: int|
                    0 <= j < s.len() && (#[trigger] s[j]).name@ != name@ implies s.contains(s[j]) by {}
            },
        }
    }
}

} // verus!
