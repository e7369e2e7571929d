//! The status tracker: a mapping from job name to lifecycle status with a
//! fixed transition graph.
//!
//! A job enters as `Accepted` when a deployment is taken in, moves to
//! `Compiling` when its compile job starts, and ends at `Ready` on a
//! successful install or at `Failed` with a reason. `Ready` and `Failed`
//! are terminal within a lifecycle; a new upload under the same name starts
//! over at `Accepted`. An illegal transition is ignored; the caller learns
//! of it from the returned flag and is expected to report it loudly.

use vstd::prelude::*;

use crate::strmap::StringMap;

verus! {

/// The lifecycle status of one deployment job.
#[derive(Clone, Debug, PartialEq)]
pub enum Status {
    Accepted,
    Compiling,
    Failed(String),
    Ready,
}

/// One tracked deployment, as reported by a snapshot.
#[derive(Clone, Debug, PartialEq)]
pub struct FuncktionEntry {
    pub status: Status,
}

/// The transition graph: `add` creates `Accepted` entries, and `set` moves
/// `Accepted` to `Compiling` and `Compiling` to `Ready` or `Failed`.
pub open spec fn legal_transition(from: Status, to: Status) -> bool {
    match to {
        Status::Accepted => false,
        Status::Compiling => from is Accepted,
        Status::Ready => from is Compiling,
        Status::Failed(_) => from is Compiling,
    }
}

/// An exact copy of a status value.
pub fn clone_status(s: &Status) -> (r: Status)
    ensures
        r == *s,
{
    match s {
        Status::Accepted => Status::Accepted,
        Status::Compiling => Status::Compiling,
        Status::Ready => Status::Ready,
        Status::Failed(m) => Status::Failed(m.clone()),
    }
}

/// The mapping from job name to status.
pub struct StatusTracker {
    registrations: StringMap<Status>,
}

impl View for StatusTracker {
    type V = Map<Seq<char>, Status>;

    closed spec fn view(&self) -> Map<Seq<char>, Status> {
        self.registrations@
    }
}

impl StatusTracker {
    /// Well-formedness of the underlying map.
    pub closed spec fn wf(&self) -> bool {
        self.registrations.wf()
    }

    /// An empty tracker.
    pub fn new() -> (r: StatusTracker)
        ensures
            r.wf(),
            r@ == Map::<Seq<char>, Status>::empty(),
    {
        StatusTracker { registrations: StringMap::new() }
    }

    /// Register a job as `Accepted`, replacing any prior entry under the
    /// same name.
    pub fn add(&mut self, fn_name: &str)
        requires
            old(self).wf(),
        ensures
            final(self).wf(),
            final(self)@ == old(self)@.insert(fn_name@, Status::Accepted),
    {
        self.registrations.insert(fn_name.to_owned(), Status::Accepted);
    }

    /// The status of a job, if it is tracked.
    pub fn get_status(&self, fn_name: &str) -> (r: Option<Status>)
        requires
            self.wf(),
        ensures
            match r {
                Some(s) => self@.contains_key(fn_name@) && s == self@[fn_name@],
                None => !self@.contains_key(fn_name@),
            },
    {
        let key = fn_name.to_owned();
        match self.registrations.get(&key) {
            Some(s) => Some(clone_status(s)),
            None => None,
        }
    }

    /// Move a tracked job along the transition graph. A transition outside
    /// the graph, or to an untracked name, changes nothing; the returned
    /// flag says whether the new status was taken.
    pub fn update_status(&mut self, fn_name: &str, new_status: Status) -> (applied: bool)
        requires
            old(self).wf(),
        ensures
            final(self).wf(),
            applied == (old(self)@.contains_key(fn_name@) && legal_transition(
                old(self)@[fn_name@],
                new_status,
            )),
            final(self)@ == if applied {
                old(self)@.insert(fn_name@, new_status)
            } else {
                old(self)@
            },
    {
        let key = fn_name.to_owned();
        let legal = match self.registrations.get(&key) {
            Some(current) => match (&new_status, current) {
                (Status::Compiling, Status::Accepted) => true,
                (Status::Ready, Status::Compiling) => true,
                (Status::Failed(_), Status::Compiling) => true,
                _ => false,
            },
            None => false,
        };
        if legal {
            self.registrations.insert(key, new_status);
        }
        legal
    }

    /// Register a job directly under a given status, outside the transition
    /// graph. Used only by the startup scan to seed `Ready` entries.
    pub fn new_with_status(&mut self, fn_name: &str, new_status: Status)
        requires
            old(self).wf(),
        ensures
            final(self).wf(),
            final(self)@ == old(self)@.insert(fn_name@, new_status),
    {
        self.registrations.insert(fn_name.to_owned(), new_status);
    }

    /// A point-in-time snapshot: every tracked job with its status, each
    /// exactly once.
    pub fn all(&self) -> (r: Vec<(String, FuncktionEntry)>)
        requires
            self.wf(),
        ensures
            forall|i: int|
                0 <= i < r@.len() ==> self@.contains_key(#[trigger] r@[i].0@) && self@[r@[i].0@]
                    == r@[i].1.status,
            forall|k: Seq<char>| #[trigger]
                self@.contains_key(k) ==> exists|i: int| 0 <= i < r@.len() && r@[i].0@ == k,
            forall|i: int, j: int| 0 <= i < j < r@.len() ==> r@[i].0@ != r@[j].0@,
    {
        let n = self.registrations.len();
        let mut r: Vec<(String, FuncktionEntry)> = Vec::new();
        let mut i: usize = 0;
        while i < n
            invariant
                i <= n,
                n == self.registrations.spec_len(),
                self.wf(),
                r@.len() == i,
                forall|j: int|
                    0 <= j < i ==> #[trigger] r@[j].0@ == self.registrations.spec_key_at(j)
                        && self@.contains_key(r@[j].0@) && self@[r@[j].0@] == r@[j].1.status,
                forall|a: int, b: int| 0 <= a < b < i ==> r@[a].0@ != r@[b].0@,
                forall|a: int, b: int|
                    #![trigger self.registrations.spec_key_at(a), self.registrations.spec_key_at(b)]
                    0 <= a < b < n ==> self.registrations.spec_key_at(a)
                        != self.registrations.spec_key_at(b),
            decreases n - i,
        {
            let pair = self.registrations.pair_at(i);
            let entry = FuncktionEntry { status: clone_status(pair.1) };
            r.push((pair.0.clone(), entry));
            proof {
                assert forall|a: int, b: int| 0 <= a < b < i + 1 implies r@[a].0@ != r@[b].0@ by {
                    assert(r@[a].0@ == self.registrations.spec_key_at(a));
                    assert(r@[b].0@ == self.registrations.spec_key_at(b));
                    assert(self.registrations.spec_key_at(a) != self.registrations.spec_key_at(b));
                }
            }
            i = i + 1;
        }
        proof {
            assert forall|k: Seq<char>| #[trigger]
                self@.contains_key(k) implies exists|i: int|
                0 <= i < r@.len() && r@[i].0@ == k by {
                let j = choose|j: int|
                    0 <= j < self.registrations.spec_len() && self.registrations.spec_key_at(j)
                        == k;
                assert(r@[j].0@ == k);
            }
        }
        r
    }
}

} // verus!
