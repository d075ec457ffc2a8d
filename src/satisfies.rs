use vstd::prelude::*;

use crate::dist::{
    InstalledDistribution, Requirement, same_content, same_origin, version_allowed,
};

verus! {

/// Why an installed distribution does not match a requirement.
#[derive(Debug, Clone, Copy, PartialEq, Eq, Structural)]
pub enum MismatchReason {
    /// It comes from another kind of source, or another URL or path.
    Source,
    /// It has another version than the one pinned.
    Version,
}

/// The outcome of comparing a requirement with an installed distribution.
#[derive(Debug, Clone, Copy, PartialEq, Eq, Structural)]
pub enum SatisfiesResult {
    /// The installed distribution can stay as it is.
    Satisfied,
    /// The installed distribution is of something else and must be replaced.
    Mismatch(MismatchReason),
    /// The installed distribution comes from the same local source, whose
    /// content has changed since.
    OutOfDate,
    /// The installed metadata cannot be read, so nothing can be confirmed.
    Unusable,
}

/// What `satisfies` returns: unreadable metadata first, then the source, then
/// the content of a local source, then the version.
pub open spec fn satisfies_spec(req: Requirement, d: InstalledDistribution) -> SatisfiesResult {
    if !d.metadata_readable {
        SatisfiesResult::Unusable
    } else if !same_origin(req.source, d.source) {
        SatisfiesResult::Mismatch(MismatchReason::Source)
    } else if !same_content(req.source, d.source) {
        SatisfiesResult::OutOfDate
    } else if !version_allowed(req, d.version) {
        SatisfiesResult::Mismatch(MismatchReason::Version)
    } else {
        SatisfiesResult::Satisfied
    }
}

/// Decide whether an installed distribution of the requirement's project
/// already satisfies it.
pub fn satisfies(req: &Requirement, installed: &InstalledDistribution) -> (r: SatisfiesResult)
    ensures
        r == satisfies_spec(*req, *installed),
{
    if !installed.metadata_readable {
        SatisfiesResult::Unusable
    } else if !req.source.same_origin(&installed.source) {
        SatisfiesResult::Mismatch(MismatchReason::Source)
    } else if !req.source.same_content(&installed.source) {
        SatisfiesResult::OutOfDate
    } else if !req.allows_version(&installed.version) {
        SatisfiesResult::Mismatch(MismatchReason::Version)
    } else {
        SatisfiesResult::Satisfied
    }
}

/// An installed distribution satisfies a requirement exactly when its metadata
/// is readable and its source identity, content and version match the
/// requirement; unreadable metadata always gives `Unusable`.
pub proof fn satisfied_iff_exact_match(req: Requirement, d: InstalledDistribution)
    ensures
        (satisfies_spec(req, d) == SatisfiesResult::Satisfied) <==> (d.metadata_readable
            && same_origin(req.source, d.source) && same_content(req.source, d.source)
            && version_allowed(req, d.version)),
        !d.metadata_readable ==> satisfies_spec(req, d) == SatisfiesResult::Unusable,
{
}

/// A local source whose content changed since it was installed, from the same
/// path and with readable metadata, is reported out of date, never satisfied.
pub proof fn changed_source_is_out_of_date(req: Requirement, d: InstalledDistribution)
    requires
        d.metadata_readable,
        same_origin(req.source, d.source),
        !same_content(req.source, d.source),
    ensures
        satisfies_spec(req, d) == SatisfiesResult::OutOfDate,
{
}

} // verus!
