use vstd::prelude::*;

verus! {

/// The release segments of a version, such as `[3, 12, 1]` for `3.12.1`.
#[derive(Debug)]
pub struct Version {
    pub release: Vec<u64>,
}

/// The `i`-th release segment, where missing trailing segments count as zero.
pub open spec fn segment(r: Seq<u64>, i: int) -> u64 {
    if 0 <= i < r.len() {
        r[i]
    } else {
        0
    }
}

/// Two releases are equal when they agree segment by segment, padding the
/// shorter one with zeros (`1.0` and `1.0.0` are the same release).
pub open spec fn release_matches(a: Seq<u64>, b: Seq<u64>) -> bool {
    forall|i: int| 0 <= i ==> #[trigger] segment(a, i) == segment(b, i)
}

impl Version {
    pub open spec fn spec_release(&self) -> Seq<u64> {
        self.release@
    }

    pub fn new(release: Vec<u64>) -> (r: Version)
        ensures
            r.release@ == release@,
    {
        Version { release }
    }

    /// A copy of this version.
    pub fn duplicate(&self) -> (r: Version)
        ensures
            r.release@ == self.release@,
    {
        let mut out: Vec<u64> = Vec::new();
        let mut i: usize = 0;
        while i < self.release.len()
            invariant
                i <= self.release@.len(),
                out@ == self.release@.subrange(0, i as int),
            decreases self.release@.len() - i,
        {
            out.push(self.release[i]);
            i = i + 1;
        }
        assert(out@ == self.release@.subrange(0, self.release@.len() as int));
        assert(out@ =~= self.release@);
        Version { release: out }
    }

    /// Whether two versions name the same release.
    pub fn same_release(&self, other: &Version) -> (r: bool)
        ensures
            r == release_matches(self.release@, other.release@),
    {
        let a = &self.release;
        let b = &other.release;
        assert(a@ == self.release@ && b@ == other.release@);
        let n: usize = if a.len() > b.len() {
            a.len()
        } else {
            b.len()
        };
        let mut i: usize = 0;
        while i < n
            invariant
                a@ == self.release@,
                b@ == other.release@,
                n == (if a@.len() > b@.len() { a@.len() } else { b@.len() }),
                i <= n,
                forall|k: int| 0 <= k < i ==> #[trigger] segment(a@, k) == segment(b@, k),
            decreases n - i,
        {
            let x: u64 = if i < a.len() {
                a[i]
            } else {
                0
            };
            let y: u64 = if i < b.len() {
                b[i]
            } else {
                0
            };
            if x != y {
                assert(segment(a@, i as int) != segment(b@, i as int));
                assert(!release_matches(a@, b@));
                return false;
            }
            i = i + 1;
        }
        assert forall|k: int| 0 <= k implies #[trigger] segment(a@, k) == segment(b@, k) by {
            if k >= n {
                assert(segment(a@, k) == 0);
                assert(segment(b@, k) == 0);
            }
        }
        true
    }

    /// The first two release segments, as `(major, minor)`.
    pub fn major_minor(&self) -> (r: (u64, u64))
        ensures
            r == (segment(self.release@, 0), segment(self.release@, 1)),
    {
        let major: u64 = if self.release.len() > 0 {
            self.release[0]
        } else {
            0
        };
        let minor: u64 = if self.release.len() > 1 {
            self.release[1]
        } else {
            0
        };
        (major, minor)
    }
}

/// A version together with the text it was written as.
#[derive(Debug)]
pub struct StringVersion {
    pub string: String,
    pub version: Version,
}

impl StringVersion {
    pub fn new(string: String, version: Version) -> (r: StringVersion)
        ensures
            r.string@ == string@,
            r.version.release@ == version.release@,
    {
        StringVersion { string, version }
    }

    /// A copy of this version and its text.
    pub fn duplicate(&self) -> (r: StringVersion)
        ensures
            r.string@ == self.string@,
            r.version.release@ == self.version.release@,
    {
        StringVersion { string: self.string.clone(), version: self.version.duplicate() }
    }
}

} // verus!
