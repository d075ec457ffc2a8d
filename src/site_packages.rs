use vstd::prelude::*;

use crate::dist::InstalledDistribution;

verus! {

/// An anomaly found while indexing an environment.
#[derive(Debug)]
pub enum SitePackagesDiagnostic {
    /// A second distribution of a project that is already indexed; the first one is kept.
    DuplicatePackage { name: String },
    /// A distribution whose installed metadata could not be parsed.
    MetadataUnavailable { name: String },
}

/// Some distribution of `s` has the project name `name`.
pub open spec fn has_name(s: Seq<InstalledDistribution>, name: Seq<char>) -> bool {
    exists|k: int| 0 <= k < s.len() && (#[trigger] s[k]).name@ == name
}

/// No two distributions of `s` share a project name.
pub open spec fn unique_names(s: Seq<InstalledDistribution>) -> bool {
    forall|a: int, b: int|
        0 <= a < s.len() && 0 <= b < s.len() && a != b ==> (#[trigger] s[a]).name@ != (
        #[trigger] s[b]).name@
}

/// The distributions kept from a scan: each project's first distribution, in scan order.
pub open spec fn first_of_each(s: Seq<InstalledDistribution>) -> Seq<InstalledDistribution>
    decreases s.len(),
{
    if s.len() == 0 {
        Seq::empty()
    } else {
        let kept = first_of_each(s.drop_last());
        if has_name(kept, s.last().name@) {
            kept
        } else {
            kept.push(s.last())
        }
    }
}

/// The diagnostics of a scan, in scan order: a duplicate for each distribution
/// of a project seen before, and an unreadable-metadata note for each other
/// distribution whose metadata could not be parsed.
pub open spec fn diagnostics_of(s: Seq<InstalledDistribution>) -> Seq<SitePackagesDiagnostic>
    decreases s.len(),
{
    if s.len() == 0 {
        Seq::empty()
    } else {
        let before = diagnostics_of(s.drop_last());
        let d = s.last();
        if has_name(first_of_each(s.drop_last()), d.name@) {
            before.push(SitePackagesDiagnostic::DuplicatePackage { name: d.name })
        } else if !d.metadata_readable {
            before.push(SitePackagesDiagnostic::MetadataUnavailable { name: d.name })
        } else {
            before
        }
    }
}

pub proof fn first_of_each_unique(s: Seq<InstalledDistribution>)
    ensures
        unique_names(first_of_each(s)),
    decreases s.len(),
{
    if s.len() > 0 {
        first_of_each_unique(s.drop_last());
    }
}

/// An index of the distributions installed in an environment, by project name.
#[derive(Debug)]
pub struct SitePackages {
    pub distributions: Vec<InstalledDistribution>,
    pub diagnostics: Vec<SitePackagesDiagnostic>,
}

impl SitePackages {
    /// At most one distribution per project name.
    pub open spec fn well_formed(&self) -> bool {
        unique_names(self.distributions@)
    }

    /// Index the distributions found by a scan. The first distribution of each
    /// project is kept; later ones, and unreadable metadata, become diagnostics.
    pub fn from_installed(installed: Vec<InstalledDistribution>) -> (r: SitePackages)
        ensures
            r.well_formed(),
            r.distributions@ == first_of_each(installed@),
            r.diagnostics@ == diagnostics_of(installed@),
    {
        let total: usize = installed.len();
        let ghost all = installed@;
        let mut rest = installed;
        let mut kept: Vec<InstalledDistribution> = Vec::new();
        let mut diagnostics: Vec<SitePackagesDiagnostic> = Vec::new();
        let mut k: usize = 0;
        while rest.len() > 0
            invariant
                k + rest@.len() == all.len(),
                all.len() == total,
                rest@ == all.subrange(k as int, all.len() as int),
                kept@ == first_of_each(all.subrange(0, k as int)),
                diagnostics@ == diagnostics_of(all.subrange(0, k as int)),
            decreases rest@.len(),
        {
            let d = rest.remove(0);
            let ghost prefix = all.subrange(0, k as int + 1);
            assert(prefix.drop_last() =~= all.subrange(0, k as int));
            assert(prefix.last() == d);
            proof {
                first_of_each_unique(all.subrange(0, k as int));
            }
            let found = position(&kept, &d.name);
            match found {
                Some(_) => {
                    diagnostics.push(
                        SitePackagesDiagnostic::DuplicatePackage { name: d.name.clone() },
                    );
                },
                None => {
                    if !d.metadata_readable {
                        diagnostics.push(
                            SitePackagesDiagnostic::MetadataUnavailable { name: d.name.clone() },
                        );
                    }
                    kept.push(d);
                },
            }
            k = k + 1;
            assert(rest@ =~= all.subrange(k as int, all.len() as int));
        }
        assert(all.subrange(0, k as int) =~= all);
        proof {
            first_of_each_unique(all);
        }
        SitePackages { distributions: kept, diagnostics }
    }

    /// The index of the distribution of the project `name`, if one is installed.
    pub fn get(&self, name: &String) -> (r: Option<usize>)
        requires
            self.well_formed(),
        ensures
            r.is_none() <==> !has_name(self.distributions@, name@),
            r matches Some(k) ==> k < self.distributions@.len()
                && self.distributions@[k as int].name@ == name@,
    {
        position(&self.distributions, name)
    }
}

/// The position of the first distribution named `name`.
pub fn position(s: &Vec<InstalledDistribution>, name: &String) -> (r: Option<usize>)
    ensures
        r.is_none() <==> !has_name(s@, name@),
        r matches Some(k) ==> k < s@.len() && s@[k as int].name@ == name@,
{
    let mut i: usize = 0;
    while i < s.len()
        invariant
            i <= s@.len(),
            forall|k: int| 0 <= k < i ==> (#[trigger] s@[k]).name@ != name@,
        decreases s@.len() - i,
    {
        if s[i].name == *name {
            return Some(i);
        }
        i = i + 1;
    }
    None
}

} // verus!
