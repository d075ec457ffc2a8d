use vstd::prelude::*;

use crate::dist::{CachedWheel, InstalledDistribution, Requirement, wheel_matches};
use crate::satisfies::{SatisfiesResult, satisfies, satisfies_spec};
use crate::site_packages::SitePackages;

verus! {

/// The requirement set given to the planner is malformed.
#[derive(Debug)]
pub enum PlanningError {
    /// Two requirements name the same project; the second one's name is given.
    DuplicateRequirement { name: String },
}

/// Where a desired requirement falls in a plan.
#[derive(Debug, Clone, Copy, PartialEq, Eq, Structural)]
pub enum Category {
    Reuse,
    Cached,
    Remote,
}

/// The work that brings an environment to a desired set of requirements.
/// `reuse`, `cached` and `remote` hold positions in the requirement list, in
/// increasing order; `extraneous` holds positions in the inventory.
#[derive(Debug)]
pub struct Plan {
    /// Requirements already satisfied by the environment.
    pub reuse: Vec<usize>,
    /// Requirements with a matching wheel in the local cache.
    pub cached: Vec<usize>,
    /// Requirements that must be downloaded or built.
    pub remote: Vec<usize>,
    /// Installed distributions to remove.
    pub extraneous: Vec<usize>,
}

/// No two requirements name the same project.
pub open spec fn distinct_names(reqs: Seq<Requirement>) -> bool {
    forall|a: int, b: int|
        0 <= a < b < reqs.len() ==> (#[trigger] reqs[a]).name@ != (#[trigger] reqs[b]).name@
}

/// Some installed distribution of the requirement's project satisfies it.
pub open spec fn reusable(req: Requirement, installed: Seq<InstalledDistribution>) -> bool {
    exists|k: int|
        0 <= k < installed.len() && (#[trigger] installed[k]).name@ == req.name@
            && satisfies_spec(req, installed[k]) == SatisfiesResult::Satisfied
}

/// Some cached wheel is an artifact of exactly the requirement.
pub open spec fn cache_has(req: Requirement, cache: Seq<CachedWheel>) -> bool {
    exists|c: int| 0 <= c < cache.len() && wheel_matches(req, #[trigger] cache[c])
}

pub open spec fn category(
    req: Requirement,
    installed: Seq<InstalledDistribution>,
    cache: Seq<CachedWheel>,
) -> Category {
    if reusable(req, installed) {
        Category::Reuse
    } else if cache_has(req, cache) {
        Category::Cached
    } else {
        Category::Remote
    }
}

/// An installed distribution is extraneous when no requirement of its project
/// is satisfied by it: it is not desired, or it is being replaced.
pub open spec fn extraneous(d: InstalledDistribution, reqs: Seq<Requirement>) -> bool {
    forall|i: int|
        0 <= i < reqs.len() && (#[trigger] reqs[i]).name@ == d.name@ ==> satisfies_spec(reqs[i], d)
            != SatisfiesResult::Satisfied
}

/// `s` lists, in increasing order, exactly the positions below `n` that meet `pick`.
pub open spec fn lists_exactly(s: Seq<usize>, n: nat, pick: spec_fn(int) -> bool) -> bool {
    &&& forall|a: int, b: int| 0 <= a < b < s.len() ==> #[trigger] s[a] < #[trigger] s[b]
    &&& forall|a: int| 0 <= a < s.len() ==> #[trigger] s[a] < n
    &&& forall|i: usize| i < n ==> (#[trigger] s.contains(i) <==> pick(i as int))
}

/// The plan is the one owed for these requirements, inventory and cache.
pub open spec fn plan_matches(
    p: Plan,
    reqs: Seq<Requirement>,
    installed: Seq<InstalledDistribution>,
    cache: Seq<CachedWheel>,
) -> bool {
    &&& lists_exactly(
        p.reuse@,
        reqs.len(),
        |i: int| category(reqs[i], installed, cache) == Category::Reuse,
    )
    &&& lists_exactly(
        p.cached@,
        reqs.len(),
        |i: int| category(reqs[i], installed, cache) == Category::Cached,
    )
    &&& lists_exactly(
        p.remote@,
        reqs.len(),
        |i: int| category(reqs[i], installed, cache) == Category::Remote,
    )
    &&& lists_exactly(p.extraneous@, installed.len(), |j: int| extraneous(installed[j], reqs))
}

/// Appending position `n` exactly when it is picked keeps a list exact one
/// position further.
pub proof fn push_keeps_list(s: Seq<usize>, n: usize, pick: spec_fn(int) -> bool, add: bool)
    requires
        lists_exactly(s, n as nat, pick),
        add == pick(n as int),
    ensures
        lists_exactly(if add { s.push(n) } else { s }, n as nat + 1, pick),
{
    let t = if add {
        s.push(n)
    } else {
        s
    };
    assert forall|i: usize| i < n as nat + 1 implies (#[trigger] t.contains(i) <==> pick(
        i as int,
    )) by {
        if i < n {
            if add {
                if s.contains(i) {
                    let k = choose|k: int| 0 <= k < s.len() && s[k] == i;
                    assert(t[k] == i);
                }
                if t.contains(i) {
                    let k = choose|k: int| 0 <= k < t.len() && t[k] == i;
                    assert(k < s.len());
                    assert(s[k] == i);
                }
            }
        } else {
            if add {
                assert(t[s.len() as int] == n);
            } else {
                if s.contains(i) {
                    let k = choose|k: int| 0 <= k < s.len() && s[k] == i;
                    assert(s[k] < n);
                }
            }
        }
    }
}

/// Whether some cached wheel matches the requirement.
fn find_cached(req: &Requirement, cache: &Vec<CachedWheel>) -> (r: bool)
    ensures
        r == cache_has(*req, cache@),
{
    let mut c: usize = 0;
    while c < cache.len()
        invariant
            c <= cache@.len(),
            forall|k: int| 0 <= k < c ==> !wheel_matches(*req, #[trigger] cache@[k]),
        decreases cache@.len() - c,
    {
        if cache[c].matches(req) {
            return true;
        }
        c = c + 1;
    }
    false
}

/// The position of a requirement whose project another, earlier one names too.
fn find_duplicate(reqs: &Vec<Requirement>) -> (r: Option<usize>)
    ensures
        r.is_none() <==> distinct_names(reqs@),
        r matches Some(b) ==> b < reqs@.len() && exists|a: int|
            0 <= a < b && reqs@[a].name@ == reqs@[b as int].name@,
{
    let mut b: usize = 0;
    while b < reqs.len()
        invariant
            b <= reqs@.len(),
            forall|x: int, y: int|
                0 <= x < y < b ==> (#[trigger] reqs@[x]).name@ != (#[trigger] reqs@[y]).name@,
        decreases reqs@.len() - b,
    {
        let mut a: usize = 0;
        while a < b
            invariant
                b < reqs@.len(),
                a <= b,
                forall|x: int| 0 <= x < a ==> (#[trigger] reqs@[x]).name@ != reqs@[b as int].name@,
            decreases b - a,
        {
            if reqs[a].name == reqs[b].name {
                return Some(b);
            }
            a = a + 1;
        }
        b = b + 1;
    }
    None
}

/// Whether an installed distribution is extraneous to the requirements.
fn is_extraneous(d: &InstalledDistribution, reqs: &Vec<Requirement>) -> (r: bool)
    ensures
        r == extraneous(*d, reqs@),
{
    let mut i: usize = 0;
    while i < reqs.len()
        invariant
            i <= reqs@.len(),
            forall|k: int|
                0 <= k < i && (#[trigger] reqs@[k]).name@ == d.name@ ==> satisfies_spec(
                    reqs@[k],
                    *d,
                ) != SatisfiesResult::Satisfied,
        decreases reqs@.len() - i,
    {
        if reqs[i].name == d.name {
            if satisfies(&reqs[i], d) == SatisfiesResult::Satisfied {
                return false;
            }
        }
        i = i + 1;
    }
    true
}

/// Compare the desired requirements with an environment and a cache snapshot.
/// Fails if two requirements name the same project; otherwise sorts each
/// requirement into reuse, cached or remote, and lists the installed
/// distributions to remove.
pub fn plan(
    reqs: &Vec<Requirement>,
    site_packages: &SitePackages,
    cache: &Vec<CachedWheel>,
) -> (r: Result<Plan, PlanningError>)
    requires
        site_packages.well_formed(),
    ensures
        r.is_ok() <==> distinct_names(reqs@),
        r matches Ok(p) ==> plan_matches(p, reqs@, site_packages.distributions@, cache@),
{
    if let Some(b) = find_duplicate(reqs) {
        return Err(PlanningError::DuplicateRequirement { name: reqs[b].name.clone() });
    }
    let ghost installed = site_packages.distributions@;
    let ghost pick_reuse = |i: int| category(reqs@[i], installed, cache@) == Category::Reuse;
    let ghost pick_cached = |i: int| category(reqs@[i], installed, cache@) == Category::Cached;
    let ghost pick_remote = |i: int| category(reqs@[i], installed, cache@) == Category::Remote;
    let mut reuse: Vec<usize> = Vec::new();
    let mut cached: Vec<usize> = Vec::new();
    let mut remote: Vec<usize> = Vec::new();
    let mut i: usize = 0;
    while i < reqs.len()
        invariant
            site_packages.well_formed(),
            installed == site_packages.distributions@,
            i <= reqs@.len(),
            forall|x: int|
                #![trigger pick_reuse(x)]
                #![trigger pick_cached(x)]
                #![trigger pick_remote(x)]
                {
                    &&& pick_reuse(x) == (category(reqs@[x], installed, cache@) == Category::Reuse)
                    &&& pick_cached(x) == (category(reqs@[x], installed, cache@)
                        == Category::Cached)
                    &&& pick_remote(x) == (category(reqs@[x], installed, cache@)
                        == Category::Remote)
                },
            lists_exactly(reuse@, i as nat, pick_reuse),
            lists_exactly(cached@, i as nat, pick_cached),
            lists_exactly(remote@, i as nat, pick_remote),
        decreases reqs@.len() - i,
    {
        let req = &reqs[i];
        let reuse_it = match site_packages.get(&req.name) {
            Some(k) => {
                let ok = satisfies(req, &site_packages.distributions[k])
                    == SatisfiesResult::Satisfied;
                proof {
                    if !ok {
                        assert forall|j: int|
                            0 <= j < installed.len() && (#[trigger] installed[j]).name@
                                == req.name@ implies satisfies_spec(*req, installed[j])
                            != SatisfiesResult::Satisfied by {
                            assert(j == k);
                        }
                    }
                }
                ok
            },
            None => false,
        };
        assert(reuse_it == reusable(*req, installed));
        let in_cache = if reuse_it {
            false
        } else {
            find_cached(req, cache)
        };
        let cat = if reuse_it {
            Category::Reuse
        } else if in_cache {
            Category::Cached
        } else {
            Category::Remote
        };
        assert(cat == category(reqs@[i as int], installed, cache@));
        proof {
            push_keeps_list(reuse@, i, pick_reuse, cat == Category::Reuse);
            push_keeps_list(cached@, i, pick_cached, cat == Category::Cached);
            push_keeps_list(remote@, i, pick_remote, cat == Category::Remote);
        }
        match cat {
            Category::Reuse => reuse.push(i),
            Category::Cached => cached.push(i),
            Category::Remote => remote.push(i),
        }
        i = i + 1;
    }
    let ghost pick_extra = |j: int| extraneous(installed[j], reqs@);
    let mut extra: Vec<usize> = Vec::new();
    let mut j: usize = 0;
    while j < site_packages.distributions.len()
        invariant
            installed == site_packages.distributions@,
            j <= installed.len(),
            forall|x: int| #[trigger] pick_extra(x) == extraneous(installed[x], reqs@),
            lists_exactly(extra@, j as nat, pick_extra),
        decreases installed.len() - j,
    {
        let e = is_extraneous(&site_packages.distributions[j], reqs);
        proof {
            push_keeps_list(extra@, j, pick_extra, e);
        }
        if e {
            extra.push(j);
        }
        j = j + 1;
    }
    Ok(Plan { reuse, cached, remote, extraneous: extra })
}

/// Some requirement names the project `name`.
pub open spec fn desired(name: Seq<char>, reqs: Seq<Requirement>) -> bool {
    exists|i: int| 0 <= i < reqs.len() && (#[trigger] reqs[i]).name@ == name
}

/// Every installed distribution is a satisfying distribution of some
/// requirement, and every requirement has one.
pub open spec fn realizes(reqs: Seq<Requirement>, installed: Seq<InstalledDistribution>) -> bool {
    &&& forall|j: int|
        0 <= j < installed.len() ==> exists|i: int|
            0 <= i < reqs.len() && (#[trigger] reqs[i]).name@ == (#[trigger] installed[j]).name@
                && satisfies_spec(reqs[i], installed[j]) == SatisfiesResult::Satisfied
    &&& forall|i: int| 0 <= i < reqs.len() ==> reusable(#[trigger] reqs[i], installed)
}

/// A plan puts every desired requirement in exactly one of reuse, cached and
/// remote, and lists every installed distribution of an undesired project as
/// extraneous.
pub proof fn plan_partition(
    p: Plan,
    reqs: Seq<Requirement>,
    installed: Seq<InstalledDistribution>,
    cache: Seq<CachedWheel>,
)
    requires
        plan_matches(p, reqs, installed, cache),
    ensures
        forall|i: usize|
            i < reqs.len() ==> {
                let (a, b, c) = (
                    #[trigger] p.reuse@.contains(i),
                    p.cached@.contains(i),
                    p.remote@.contains(i),
                );
                (a || b || c) && !(a && b) && !(a && c) && !(b && c)
            },
        forall|j: usize|
            j < installed.len() && !desired(installed[j as int].name@, reqs)
                ==> #[trigger] p.extraneous@.contains(j),
{
    assert forall|i: usize| i < reqs.len() implies {
        let (a, b, c) = (
            #[trigger] p.reuse@.contains(i),
            p.cached@.contains(i),
            p.remote@.contains(i),
        );
        (a || b || c) && !(a && b) && !(a && c) && !(b && c)
    } by {
        assert(p.reuse@.contains(i) == (category(reqs[i as int], installed, cache)
            == Category::Reuse));
        assert(p.cached@.contains(i) == (category(reqs[i as int], installed, cache)
            == Category::Cached));
        assert(p.remote@.contains(i) == (category(reqs[i as int], installed, cache)
            == Category::Remote));
    }
    assert forall|j: usize|
        j < installed.len() && !desired(installed[j as int].name@, reqs) implies #[trigger] p.extraneous@.contains(
        j,
    ) by {
        assert forall|i: int|
            0 <= i < reqs.len() && (#[trigger] reqs[i]).name@ == installed[j as int].name@ implies satisfies_spec(
            reqs[i],
            installed[j as int],
        ) != SatisfiesResult::Satisfied by {
            assert(desired(installed[j as int].name@, reqs));
        }
        assert(extraneous(installed[j as int], reqs));
    }
}

/// Planning again, once the environment holds a satisfying distribution for
/// each desired requirement and nothing else, reuses every requirement and
/// leaves nothing to fetch or remove.
pub proof fn replan_is_empty(
    p: Plan,
    reqs: Seq<Requirement>,
    installed: Seq<InstalledDistribution>,
    cache: Seq<CachedWheel>,
)
    requires
        realizes(reqs, installed),
        plan_matches(p, reqs, installed, cache),
    ensures
        forall|i: usize| i < reqs.len() ==> #[trigger] p.reuse@.contains(i),
        p.cached@.len() == 0,
        p.remote@.len() == 0,
        p.extraneous@.len() == 0,
{
    assert forall|i: usize| i < reqs.len() implies #[trigger] p.reuse@.contains(i) by {
        assert(reusable(reqs[i as int], installed));
    }
    if p.cached@.len() > 0 {
        let i = p.cached@[0];
        assert(p.cached@.contains(i));
        assert(reusable(reqs[i as int], installed));
    }
    if p.remote@.len() > 0 {
        let i = p.remote@[0];
        assert(p.remote@.contains(i));
        assert(reusable(reqs[i as int], installed));
    }
    if p.extraneous@.len() > 0 {
        let j = p.extraneous@[0];
        assert(p.extraneous@.contains(j));
        assert(extraneous(installed[j as int], reqs));
        let i = choose|i: int|
            0 <= i < reqs.len() && (#[trigger] reqs[i]).name@ == (
            #[trigger] installed[j as int]).name@ && satisfies_spec(reqs[i], installed[j as int])
                == SatisfiesResult::Satisfied;
        assert(false);
    }
}

/// `after` is what executing plan `p` leaves: each of its distributions is
/// one the plan kept or a satisfying install of some requirement; every kept
/// distribution is still there; and every requirement that was not reused now
/// has a satisfying install.
pub open spec fn executed(
    p: Plan,
    reqs: Seq<Requirement>,
    before: Seq<InstalledDistribution>,
    after: Seq<InstalledDistribution>,
) -> bool {
    &&& forall|j: int|
        0 <= j < after.len() ==> (exists|k: usize|
            k < before.len() && !p.extraneous@.contains(k) && #[trigger] after[j]
                == before[k as int]) || (exists|i: int|
            0 <= i < reqs.len() && (#[trigger] reqs[i]).name@ == after[j].name@ && satisfies_spec(
                reqs[i],
                after[j],
            ) == SatisfiesResult::Satisfied)
    &&& forall|k: usize|
        k < before.len() && !p.extraneous@.contains(k) ==> after.contains(
            #[trigger] before[k as int],
        )
    &&& forall|i: usize|
        i < reqs.len() && !p.reuse@.contains(i) ==> reusable(#[trigger] reqs[i as int], after)
}

/// Executing a plan leaves an environment that holds exactly satisfying
/// distributions of the requirements.
pub proof fn execution_realizes(
    p: Plan,
    reqs: Seq<Requirement>,
    before: Seq<InstalledDistribution>,
    cache: Seq<CachedWheel>,
    after: Seq<InstalledDistribution>,
)
    requires
        reqs.len() <= usize::MAX,
        before.len() <= usize::MAX,
        plan_matches(p, reqs, before, cache),
        executed(p, reqs, before, after),
    ensures
        realizes(reqs, after),
{
    assert forall|j: int| 0 <= j < after.len() implies exists|i: int|
        0 <= i < reqs.len() && (#[trigger] reqs[i]).name@ == (#[trigger] after[j]).name@
            && satisfies_spec(reqs[i], after[j]) == SatisfiesResult::Satisfied by {
        if exists|k: usize|
            k < before.len() && !p.extraneous@.contains(k) && #[trigger] after[j]
                == before[k as int] {
            let k = choose|k: usize|
                k < before.len() && !p.extraneous@.contains(k) && #[trigger] after[j]
                    == before[k as int];
            assert(!extraneous(before[k as int], reqs));
        }
    }
    assert forall|i: int| 0 <= i < reqs.len() implies reusable(#[trigger] reqs[i], after) by {
        let iu = i as usize;
        if p.reuse@.contains(iu) {
            assert(reusable(reqs[i], before));
            let k = choose|k: int|
                0 <= k < before.len() && (#[trigger] before[k]).name@ == reqs[i].name@
                    && satisfies_spec(reqs[i], before[k]) == SatisfiesResult::Satisfied;
            let ku = k as usize;
            if p.extraneous@.contains(ku) {
                assert(extraneous(before[k], reqs));
            }
            assert(after.contains(before[ku as int]));
            let j = choose|j: int| 0 <= j < after.len() && after[j] == before[k];
            assert(after[j].name@ == reqs[i].name@);
        } else {
            assert(reusable(reqs[iu as int], after));
        }
    }
}

/// Running the planner again after a plan was executed, with no other change
/// to the environment, reuses every requirement and leaves nothing to fetch
/// or remove.
pub proof fn second_run_is_empty(
    p: Plan,
    reqs: Seq<Requirement>,
    before: Seq<InstalledDistribution>,
    cache: Seq<CachedWheel>,
    after: Seq<InstalledDistribution>,
    later_cache: Seq<CachedWheel>,
    q: Plan,
)
    requires
        reqs.len() <= usize::MAX,
        before.len() <= usize::MAX,
        plan_matches(p, reqs, before, cache),
        executed(p, reqs, before, after),
        plan_matches(q, reqs, after, later_cache),
    ensures
        forall|i: usize| i < reqs.len() ==> #[trigger] q.reuse@.contains(i),
        q.cached@.len() == 0,
        q.remote@.len() == 0,
        q.extraneous@.len() == 0,
{
    execution_realizes(p, reqs, before, cache, after);
    replan_is_empty(q, reqs, after, later_cache);
}

} // verus!
