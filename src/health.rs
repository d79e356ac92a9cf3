//! The health registry: the serving status of each registered service.
use vstd::prelude::*;

verus! {

/// The health a service reports for itself.
#[derive(Debug, Clone, Copy, PartialEq, Eq, Structural)]
pub enum ServingStatus {
    Unknown,
    Serving,
    NotServing,
    /// What a check reports of an identity that was never registered.
    ServiceNotFound,
}

/// A map from service identity to serving status, keyed by the identity's
/// characters. Each identity appears at most once.
pub struct HealthRegistry {
    entries: Vec<(String, ServingStatus)>,
    model: Ghost<Map<Seq<char>, ServingStatus>>,
}

/// What a check reports of `identity` in a registry whose contents are `m`.
pub open spec fn status_in(m: Map<Seq<char>, ServingStatus>, identity: Seq<char>) -> ServingStatus {
    if m.contains_key(identity) {
        m[identity]
    } else {
        ServingStatus::ServiceNotFound
    }
}

impl View for HealthRegistry {
    type V = Map<Seq<char>, ServingStatus>;

    closed spec fn view(&self) -> Map<Seq<char>, ServingStatus> {
        self.model@
    }
}

impl HealthRegistry {
    /// The entries list each identity of the model once, with its status,
    /// and nothing else.
    pub closed spec fn wf(&self) -> bool {
        &&& forall|i: int, j: int|
            0 <= i < j < self.entries@.len() ==> self.entries@[i].0@ != self.entries@[j].0@
        &&& forall|i: int|
            0 <= i < self.entries@.len() ==> {
                &&& #[trigger] self.model@.contains_key(self.entries@[i].0@)
                &&& self.model@[self.entries@[i].0@] == self.entries@[i].1
            }
        &&& forall|k: Seq<char>|
            #[trigger] self.model@.contains_key(k) ==> exists|i: int|
                0 <= i < self.entries@.len() && self.entries@[i].0@ == k
    }

    /// An empty registry.
    pub fn new() -> (r: HealthRegistry)
        ensures
            r.wf(),
            r@ == Map::<Seq<char>, ServingStatus>::empty(),
    {
        HealthRegistry { entries: Vec::new(), model: Ghost(Map::empty()) }
    }

    /// The position of `identity` among the entries, if it is there.
    fn find(&self, identity: &String) -> (r: Option<usize>)
        requires
            self.wf(),
        ensures
            r matches Some(i) ==> i < self.entries@.len() && self.entries@[i as int].0@ == identity@,
            r is None ==> !self@.contains_key(identity@),
    {
        let mut i: usize = 0;
        while i < self.entries.len()
            invariant
                self.wf(),
                i <= self.entries@.len(),
                forall|j: int| 0 <= j < i ==> self.entries@[j].0@ != identity@,
            decreases self.entries@.len() - i,
        {
            if self.entries[i].0 == *identity {
                return Some(i);
            }
            i = i + 1;
        }
        None
    }

    /// Adds `identity` with status `Unknown` unless it is already there;
    /// registering twice changes nothing.
    pub fn register(&mut self, identity: &str)
        requires
            old(self).wf(),
        ensures
            final(self).wf(),
            final(self)@ == if old(self)@.contains_key(identity@) {
                old(self)@
            } else {
                old(self)@.insert(identity@, ServingStatus::Unknown)
            },
    {
        let key = identity.to_owned();
        let ghost old_entries = self.entries@;
        let ghost old_model = self.model@;
        match self.find(&key) {
            Some(_) => {},
            None => {
                self.entries.push((key, ServingStatus::Unknown));
                self.model = Ghost(self.model@.insert(identity@, ServingStatus::Unknown));
                assert forall|k: Seq<char>| #[trigger] self.model@.contains_key(k) implies exists|i: int|
                    0 <= i < self.entries@.len() && self.entries@[i].0@ == k by {
                    if k == identity@ {
                        assert(self.entries@[old_entries.len() as int].0@ == k);
                    } else {
                        assert(old_model.contains_key(k));
                        let j = choose|j: int| 0 <= j < old_entries.len() && old_entries[j].0@ == k;
                        assert(self.entries@[j] == old_entries[j]);
                    }
                }
            },
        }
    }

    /// Sets the status of `identity`, registering it first if it is absent.
    pub fn set_status(&mut self, identity: &str, status: ServingStatus)
        requires
            old(self).wf(),
        ensures
            final(self).wf(),
            final(self)@ == old(self)@.insert(identity@, status),
    {
        let key = identity.to_owned();
        let ghost old_entries = self.entries@;
        let ghost old_model = self.model@;
        match self.find(&key) {
            Some(i) => {
                self.entries.set(i, (key, status));
                self.model = Ghost(self.model@.insert(identity@, status));
                assert forall|j: int| 0 <= j < self.entries@.len() implies self.entries@[j].0@ == old_entries[j].0@ && (j
                    != i ==> self.entries@[j] == old_entries[j]) by {}
                assert forall|k: Seq<char>| #[trigger] self.model@.contains_key(k) implies exists|j: int|
                    0 <= j < self.entries@.len() && self.entries@[j].0@ == k by {
                    if k == identity@ {
                        assert(self.entries@[i as int].0@ == k);
                    } else {
                        assert(old_model.contains_key(k));
                        let j = choose|j: int| 0 <= j < old_entries.len() && old_entries[j].0@ == k;
                        assert(self.entries@[j] == old_entries[j]);
                    }
                }
            },
            None => {
                self.entries.push((key, status));
                self.model = Ghost(self.model@.insert(identity@, status));
                assert forall|k: Seq<char>| #[trigger] self.model@.contains_key(k) implies exists|j: int|
                    0 <= j < self.entries@.len() && self.entries@[j].0@ == k by {
                    if k == identity@ {
                        assert(self.entries@[old_entries.len() as int].0@ == k);
                    } else {
                        assert(old_model.contains_key(k));
                        let j = choose|j: int| 0 <= j < old_entries.len() && old_entries[j].0@ == k;
                        assert(self.entries@[j] == old_entries[j]);
                    }
                }
            },
        }
    }

    /// The status of `identity`, or `ServiceNotFound` if it was never
    /// registered.
    pub fn check(&self, identity: &str) -> (r: ServingStatus)
        requires
            self.wf(),
        ensures
            r == status_in(self@, identity@),
    {
        let key = identity.to_owned();
        match self.find(&key) {
            Some(i) => self.entries[i].1,
            None => ServingStatus::ServiceNotFound,
        }
    }
}

} // verus!
