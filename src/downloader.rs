use vstd::prelude::*;

use crate::dist::CachedWheel;

verus! {

/// Why one distribution could not be fetched.
#[derive(Debug, Clone, Copy, PartialEq, Eq, Structural)]
pub enum FetchFailure {
    Network,
    Build,
    HashMismatch,
}

/// A failed fetch, named by the distribution it was for.
#[derive(Debug)]
pub struct FetchError {
    pub name: String,
    pub failure: FetchFailure,
}

/// The wheels among the outcomes, in order.
pub open spec fn successes(s: Seq<Result<CachedWheel, FetchError>>) -> Seq<CachedWheel>
    decreases s.len(),
{
    if s.len() == 0 {
        Seq::empty()
    } else {
        let before = successes(s.drop_last());
        match s.last() {
            Ok(w) => before.push(w),
            Err(_) => before,
        }
    }
}

/// The errors among the outcomes, in order.
pub open spec fn failures(s: Seq<Result<CachedWheel, FetchError>>) -> Seq<FetchError>
    decreases s.len(),
{
    if s.len() == 0 {
        Seq::empty()
    } else {
        let before = failures(s.drop_last());
        match s.last() {
            Ok(_) => before,
            Err(e) => before.push(e),
        }
    }
}

proof fn failures_empty_iff(s: Seq<Result<CachedWheel, FetchError>>)
    ensures
        failures(s).len() == 0 <==> forall|i: int| 0 <= i < s.len() ==> (#[trigger] s[i]) is Ok,
    decreases s.len(),
{
    if s.len() > 0 {
        failures_empty_iff(s.drop_last());
        let t = s.drop_last();
        if failures(s).len() == 0 {
            assert forall|i: int| 0 <= i < s.len() implies (#[trigger] s[i]) is Ok by {
                if i < t.len() {
                    assert(t[i] == s[i]);
                }
            }
        }
        if forall|i: int| 0 <= i < s.len() ==> (#[trigger] s[i]) is Ok {
            assert forall|i: int| 0 <= i < t.len() implies (#[trigger] t[i]) is Ok by {
                assert(t[i] == s[i]);
            }
            assert(s[s.len() - 1] is Ok);
        }
    }
}

/// Settle the outcomes of independent fetches, once all of them are known:
/// every wheel if all succeeded, else every failure, in order.
pub fn settle(outcomes: Vec<Result<CachedWheel, FetchError>>) -> (r: Result<
    Vec<CachedWheel>,
    Vec<FetchError>,
>)
    ensures
        r.is_ok() <==> forall|i: int| 0 <= i < outcomes@.len() ==> (#[trigger] outcomes@[i]) is Ok,
        r matches Ok(w) ==> w@ == successes(outcomes@),
        r matches Err(e) ==> e@ == failures(outcomes@),
{
    let total: usize = outcomes.len();
    let ghost all = outcomes@;
    let mut rest = outcomes;
    let mut wheels: Vec<CachedWheel> = Vec::new();
    let mut errors: Vec<FetchError> = Vec::new();
    let mut k: usize = 0;
    while rest.len() > 0
        invariant
            k + rest@.len() == all.len(),
            all.len() == total,
            rest@ == all.subrange(k as int, all.len() as int),
            wheels@ == successes(all.subrange(0, k as int)),
            errors@ == failures(all.subrange(0, k as int)),
        decreases rest@.len(),
    {
        let o = rest.remove(0);
        let ghost prefix = all.subrange(0, k as int + 1);
        assert(prefix.drop_last() =~= all.subrange(0, k as int));
        assert(prefix.last() == o);
        match o {
            Ok(w) => wheels.push(w),
            Err(e) => errors.push(e),
        }
        k = k + 1;
        assert(rest@ =~= all.subrange(k as int, all.len() as int));
    }
    assert(all.subrange(0, k as int) =~= all);
    proof {
        failures_empty_iff(all);
    }
    if errors.len() == 0 {
        Ok(wheels)
    } else {
        Err(errors)
    }
}

} // verus!
