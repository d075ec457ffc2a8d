use vstd::prelude::*;

use crate::dist::InstalledDistribution;
use crate::plan::lists_exactly;

verus! {

/// Why a distribution cannot be uninstalled at all.
#[derive(Debug)]
pub enum UninstallError {
    /// The distribution has no installed manifest, so nothing is known to be its own.
    MissingManifest { name: String },
}

/// What to do with the files of an installed distribution, by position in its
/// manifest, given the digest that each file has now (`None` when it is gone).
#[derive(Debug)]
pub struct Uninstall {
    /// Files whose content is still what was installed: remove them.
    pub remove: Vec<usize>,
    /// Files changed since they were installed: leave them and report them.
    pub modified: Vec<usize>,
    /// Files that are already gone.
    pub missing: Vec<usize>,
}

/// The file at manifest position `k` may be removed: it holds what was installed.
pub open spec fn unchanged(d: InstalledDistribution, current: Seq<Option<u64>>, k: int) -> bool {
    current[k] == Some(d.manifest@[k].digest)
}

pub open spec fn uninstall_matches(
    u: Uninstall,
    d: InstalledDistribution,
    current: Seq<Option<u64>>,
) -> bool {
    let n = d.manifest@.len();
    &&& lists_exactly(u.remove@, n, |k: int| unchanged(d, current, k))
    &&& lists_exactly(
        u.modified@,
        n,
        |k: int| current[k] is Some && !unchanged(d, current, k),
    )
    &&& lists_exactly(u.missing@, n, |k: int| current[k] is None)
}

/// Decide, file by file, how to uninstall `installed`, where `current[k]` is
/// the digest now found at the path of its `k`-th manifest entry. Only files
/// that still hold their recorded content are removed.
pub fn uninstall(installed: &InstalledDistribution, current: &Vec<Option<u64>>) -> (r: Result<
    Uninstall,
    UninstallError,
>)
    requires
        current@.len() == installed.manifest@.len(),
    ensures
        r.is_err() <==> installed.manifest@.len() == 0,
        r matches Err(UninstallError::MissingManifest { name }) ==> name@ == installed.name@,
        r matches Ok(u) ==> uninstall_matches(u, *installed, current@),
{
    let n = installed.manifest.len();
    if n == 0 {
        return Err(UninstallError::MissingManifest { name: installed.name.clone() });
    }
    let ghost d = *installed;
    let ghost cur = current@;
    let ghost pick_remove = |k: int| unchanged(d, cur, k);
    let ghost pick_modified = |k: int| cur[k] is Some && !unchanged(d, cur, k);
    let ghost pick_missing = |k: int| cur[k] is None;
    let mut remove: Vec<usize> = Vec::new();
    let mut modified: Vec<usize> = Vec::new();
    let mut missing: Vec<usize> = Vec::new();
    let mut k: usize = 0;
    while k < n
        invariant
            n == installed.manifest@.len(),
            d == *installed,
            cur == current@,
            cur.len() == n,
            k <= n,
            forall|x: int|
                #![trigger pick_remove(x)]
                #![trigger pick_modified(x)]
                #![trigger pick_missing(x)]
                {
                    &&& pick_remove(x) == unchanged(d, cur, x)
                    &&& pick_modified(x) == (cur[x] is Some && !unchanged(d, cur, x))
                    &&& pick_missing(x) == (cur[x] is None)
                },
            lists_exactly(remove@, k as nat, pick_remove),
            lists_exactly(modified@, k as nat, pick_modified),
            lists_exactly(missing@, k as nat, pick_missing),
        decreases n - k,
    {
        let recorded = installed.manifest[k].digest;
        let (is_remove, is_modified) = match current[k] {
            Some(now) => (now == recorded, now != recorded),
            None => (false, false),
        };
        let is_missing = current[k].is_none();
        proof {
            crate::plan::push_keeps_list(remove@, k, pick_remove, is_remove);
            crate::plan::push_keeps_list(modified@, k, pick_modified, is_modified);
            crate::plan::push_keeps_list(missing@, k, pick_missing, is_missing);
        }
        if is_remove {
            remove.push(k);
        }
        if is_modified {
            modified.push(k);
        }
        if is_missing {
            missing.push(k);
        }
        k = k + 1;
    }
    Ok(Uninstall { remove, modified, missing })
}

/// Uninstalling never removes a file whose current digest differs from the
/// digest in the distribution's manifest.
pub proof fn uninstall_removes_only_unchanged(
    u: Uninstall,
    d: InstalledDistribution,
    current: Seq<Option<u64>>,
)
    requires
        uninstall_matches(u, d, current),
    ensures
        forall|i: int|
            0 <= i < u.remove@.len() ==> current[#[trigger] u.remove@[i] as int] == Some(
                d.manifest@[u.remove@[i] as int].digest,
            ),
{
    assert forall|i: int| 0 <= i < u.remove@.len() implies current[#[trigger] u.remove@[i] as int]
        == Some(d.manifest@[u.remove@[i] as int].digest) by {
        let k = u.remove@[i];
        assert(k < d.manifest@.len());
        assert(u.remove@.contains(k));
    }
}

} // verus!
