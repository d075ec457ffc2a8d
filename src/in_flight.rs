use vstd::prelude::*;

verus! {

/// What a request for a distribution should do.
#[derive(Debug, Clone, Copy, PartialEq, Eq, Structural)]
pub enum InFlightAction {
    /// No one is fetching it: fetch or build it, then call `complete`.
    Perform,
    /// It is being fetched already: wait for that outcome.
    Await,
}

/// One distribution being fetched or built, with the number of callers
/// waiting for its outcome, the one doing the work included.
#[derive(Debug)]
pub struct InFlightEntry {
    pub id: String,
    pub observers: u64,
}

/// The distributions being fetched or built during one run, by identity.
pub struct InFlight {
    entries: Vec<InFlightEntry>,
    observers: Ghost<Map<Seq<char>, nat>>,
}

/// The registry after one more request for `id`.
pub open spec fn after_request(m: Map<Seq<char>, nat>, id: Seq<char>) -> Map<Seq<char>, nat> {
    if m.contains_key(id) {
        m.insert(id, m[id] + 1)
    } else {
        m.insert(id, 1)
    }
}

/// What a request for `id` is told to do.
pub open spec fn request_action(m: Map<Seq<char>, nat>, id: Seq<char>) -> InFlightAction {
    if m.contains_key(id) {
        InFlightAction::Await
    } else {
        InFlightAction::Perform
    }
}

/// The registry after `n` requests for `id`, with no completion between them.
pub open spec fn after_requests(m: Map<Seq<char>, nat>, id: Seq<char>, n: nat) -> Map<
    Seq<char>,
    nat,
>
    decreases n,
{
    if n == 0 {
        m
    } else {
        after_request(after_requests(m, id, (n - 1) as nat), id)
    }
}

impl InFlight {
    /// For each identity in flight, the number of callers waiting for it.
    pub closed spec fn view(&self) -> Map<Seq<char>, nat> {
        self.observers@
    }

    pub closed spec fn well_formed(&self) -> bool {
        let e = self.entries@;
        let m = self.observers@;
        &&& forall|a: int, b: int|
            0 <= a < e.len() && 0 <= b < e.len() && a != b ==> (#[trigger] e[a]).id@ != (
            #[trigger] e[b]).id@
        &&& forall|k: int|
            0 <= k < e.len() ==> m.contains_key((#[trigger] e[k]).id@) && m[e[k].id@]
                == e[k].observers as nat
        &&& forall|id: Seq<char>|
            #[trigger] m.contains_key(id) ==> exists|k: int| 0 <= k < e.len() && e[k].id@ == id
    }

    /// An empty registry.
    pub fn new() -> (r: InFlight)
        ensures
            r.well_formed(),
            r.view() == Map::<Seq<char>, nat>::empty(),
    {
        InFlight { entries: Vec::new(), observers: Ghost(Map::empty()) }
    }

    fn find(&self, id: &String) -> (r: Option<usize>)
        requires
            self.well_formed(),
        ensures
            r.is_none() <==> !self.view().contains_key(id@),
            r matches Some(k) ==> k < self.entries@.len() && self.entries@[k as int].id@ == id@,
    {
        let mut i: usize = 0;
        while i < self.entries.len()
            invariant
                self.well_formed(),
                i <= self.entries@.len(),
                forall|k: int| 0 <= k < i ==> (#[trigger] self.entries@[k]).id@ != id@,
            decreases self.entries@.len() - i,
        {
            if self.entries[i].id == *id {
                assert(self.observers@.contains_key(self.entries@[i as int].id@));
                return Some(i);
            }
            i = i + 1;
        }
        None
    }

    /// Ask to fetch the distribution `id`. The first request since it was last
    /// completed is told to do the work; the others are told to await it.
    pub fn request(&mut self, id: &String) -> (r: InFlightAction)
        requires
            old(self).well_formed(),
            old(self).view().contains_key(id@) ==> old(self).view()[id@] < u64::MAX,
        ensures
            final(self).well_formed(),
            r == request_action(old(self).view(), id@),
            final(self).view() == after_request(old(self).view(), id@),
    {
        match self.find(id) {
            Some(k) => {
                let n = self.entries[k].observers;
                let ghost m = self.observers@.insert(id@, (n + 1) as nat);
                let ghost e = self.entries@;
                let entry = InFlightEntry { id: id.clone(), observers: n + 1 };
                self.entries.set(k, entry);
                self.observers = Ghost(m);
                assert forall|a: int, b: int|
                    0 <= a < self.entries@.len() && 0 <= b < self.entries@.len() && a
                        != b implies (#[trigger] self.entries@[a]).id@ != (
                #[trigger] self.entries@[b]).id@ by {
                    assert(e[a].id@ != e[b].id@);
                }
                assert forall|x: Seq<char>| #[trigger] m.contains_key(x) implies exists|j: int|
                    0 <= j < self.entries@.len() && self.entries@[j].id@ == x by {
                    if x != id@ {
                        let j = choose|j: int| 0 <= j < e.len() && e[j].id@ == x;
                        assert(self.entries@[j].id@ == x);
                    } else {
                        assert(self.entries@[k as int].id@ == x);
                    }
                }
                InFlightAction::Await
            },
            None => {
                let ghost m = self.observers@.insert(id@, 1);
                let ghost e = self.entries@;
                self.entries.push(InFlightEntry { id: id.clone(), observers: 1 });
                self.observers = Ghost(m);
                assert forall|x: Seq<char>| #[trigger] m.contains_key(x) implies exists|j: int|
                    0 <= j < self.entries@.len() && self.entries@[j].id@ == x by {
                    if x != id@ {
                        let j = choose|j: int| 0 <= j < e.len() && e[j].id@ == x;
                        assert(self.entries@[j].id@ == x);
                    } else {
                        assert(self.entries@[e.len() as int].id@ == x);
                    }
                }
                InFlightAction::Perform
            },
        }
    }

    /// Mark the fetch of `id` as finished, successfully or not, and return the
    /// number of callers to hand its outcome to (zero if it was not in flight).
    pub fn complete(&mut self, id: &String) -> (r: u64)
        requires
            old(self).well_formed(),
        ensures
            final(self).well_formed(),
            final(self).view() == old(self).view().remove(id@),
            old(self).view().contains_key(id@) ==> r == old(self).view()[id@],
            !old(self).view().contains_key(id@) ==> r == 0,
    {
        match self.find(id) {
            Some(k) => {
                let ghost m = self.observers@.remove(id@);
                let ghost e = self.entries@;
                let entry = self.entries.remove(k);
                self.observers = Ghost(m);
                let ghost ne = self.entries@;
                assert forall|j: int| 0 <= j < ne.len() implies (j < k ==> ne[j] == e[j]) && (j
                    >= k ==> ne[j] == e[j + 1]) by {}
                assert forall|a: int, b: int|
                    0 <= a < ne.len() && 0 <= b < ne.len() && a != b implies (#[trigger] ne[a]).id@
                    != (#[trigger] ne[b]).id@ by {
                    let a2 = if a < k { a } else { a + 1 };
                    let b2 = if b < k { b } else { b + 1 };
                    assert(ne[a] == e[a2] && ne[b] == e[b2]);
                }
                assert forall|j: int| 0 <= j < ne.len() implies m.contains_key(
                    (#[trigger] ne[j]).id@,
                ) && m[ne[j].id@] == ne[j].observers as nat by {
                    let j2 = if j < k { j } else { j + 1 };
                    assert(ne[j] == e[j2]);
                    assert(e[j2].id@ != e[k as int].id@);
                }
                assert forall|x: Seq<char>| #[trigger] m.contains_key(x) implies exists|j: int|
                    0 <= j < ne.len() && ne[j].id@ == x by {
                    let j = choose|j: int| 0 <= j < e.len() && e[j].id@ == x;
                    assert(j != k);
                    if j < k {
                        assert(ne[j] == e[j]);
                    } else {
                        assert(ne[j - 1] == e[j]);
                    }
                }
                entry.observers
            },
            None => {
                assert(self.observers@.remove(id@) =~= self.observers@);
                0
            },
        }
    }
}

/// However many callers request the same distribution while it is in flight,
/// exactly the first is told to do the work, the others await it, and its
/// outcome is owed to all of them; other distributions are not affected.
pub proof fn one_fetch_per_identity(m: Map<Seq<char>, nat>, id: Seq<char>, n: nat)
    requires
        !m.contains_key(id),
        n >= 1,
    ensures
        request_action(m, id) == InFlightAction::Perform,
        forall|k: nat|
            1 <= k < n ==> request_action(#[trigger] after_requests(m, id, k), id)
                == InFlightAction::Await,
        after_requests(m, id, n).contains_key(id),
        after_requests(m, id, n)[id] == n,
        after_requests(m, id, n).remove(id) == m,
    decreases n,
{
    if n == 1 {
        assert(after_requests(m, id, 0) == m);
        assert(m.insert(id, 1).remove(id) =~= m);
    } else {
        one_fetch_per_identity(m, id, (n - 1) as nat);
        let prev = after_requests(m, id, (n - 1) as nat);
        assert(prev.insert(id, prev[id] + 1).remove(id) =~= prev.remove(id));
        assert forall|k: nat| 1 <= k < n implies request_action(
            #[trigger] after_requests(m, id, k),
            id,
        ) == InFlightAction::Await by {
            if k == n - 1 {
                assert(prev.contains_key(id));
            }
        }
    }
}

} // verus!
