//! The bookkeeping shared by all download tasks: which sources are enqueued,
//! which request came last, and how many downloads may run at once.

use vstd::prelude::*;
use vstd::string::*;

verus! {

/// The set of source identifiers whose download is in flight or whose result
/// has not been picked up yet.
pub struct EnqueueRegistry {
    ids: Vec<String>,
}

impl EnqueueRegistry {
    /// The registered identifiers, as a set of texts.
    pub closed spec fn view(&self) -> Set<Seq<char>> {
        Set::new(|id: Seq<char>| exists|i: int| 0 <= i < self.ids.len() && self.ids[i]@ == id)
    }

    /// No identifier is stored twice.
    pub closed spec fn wf(&self) -> bool {
        forall|i: int, j: int| 0 <= i < j < self.ids.len() ==> self.ids[i]@ != self.ids[j]@
    }

    pub fn new() -> (r: Self)
        ensures
            r.wf(),
            r@ == Set::<Seq<char>>::empty(),
    {
        let r = EnqueueRegistry { ids: Vec::new() };
        assert(r@ =~= Set::<Seq<char>>::empty());
        r
    }

    /// Where `id` is stored, if it is.
    fn position(&self, id: &str) -> (r: Option<usize>)
        ensures
            match r {
                Some(i) => i < self.ids.len() && self.ids[i as int]@ == id@,
                None => !self@.contains(id@),
            },
    {
        let mut i: usize = 0;
        while i < self.ids.len()
            invariant
                i <= self.ids.len(),
                forall|k: int| 0 <= k < i ==> self.ids[k]@ != id@,
            decreases self.ids.len() - i,
        {
            if self.ids[i].as_str().eq(id) {
                return Some(i);
            }
            i += 1;
        }
        None
    }

    /// Whether `id` is registered.
    pub fn contains(&self, id: &str) -> (r: bool)
        ensures
            r == self@.contains(id@),
    {
        match self.position(id) {
            Some(i) => {
                assert(self.ids[i as int]@ == id@);
                true
            },
            None => false,
        }
    }

    /// Registers `id` as in flight. Returns `false` and changes nothing when
    /// it is registered already, `true` otherwise.
    pub fn try_register(&mut self, id: &str) -> (fresh: bool)
        requires
            old(self).wf(),
        ensures
            final(self).wf(),
            fresh == !old(self)@.contains(id@),
            final(self)@ == old(self)@.insert(id@),
    {
        if self.contains(id) {
            assert(self@ =~= self@.insert(id@));
            return false;
        }
        let ghost before = self.ids@;
        self.ids.push(String::from_str(id));
        proof {
            assert(self.ids@.len() == before.len() + 1);
            assert(forall|k: int| 0 <= k < before.len() ==> self.ids@[k] == before[k]);
            assert(self.ids@[before.len() as int]@ == id@);
            assert forall|x: Seq<char>| final(self)@.contains(x) == old(self)@.insert(id@).contains(
                x,
            ) by {
                if old(self)@.contains(x) {
                    let i = choose|i: int| 0 <= i < before.len() && before[i]@ == x;
                    assert(self.ids@[i]@ == x);
                }
                if x == id@ {
                    assert(self.ids@[before.len() as int]@ == x);
                }
            }
            assert(final(self)@ =~= old(self)@.insert(id@));
        }
        true
    }

    /// Removes `id`, whether or not it was registered.
    pub fn unregister(&mut self, id: &str)
        requires
            old(self).wf(),
        ensures
            final(self).wf(),
            final(self)@ == old(self)@.remove(id@),
    {
        match self.position(id) {
            None => {
                assert(self@ =~= self@.remove(id@));
            },
            Some(i) => {
                let ghost before = self.ids@;
                self.ids.remove(i);
                proof {
                    assert(self.ids@ == before.remove(i as int));
                    assert forall|x: Seq<char>| final(self)@.contains(x) == old(self)@.remove(
                        id@,
                    ).contains(x) by {
                        if final(self)@.contains(x) {
                            let k = choose|k: int| 0 <= k < self.ids@.len() && self.ids@[k]@ == x;
                            if k < i {
                                assert(before[k]@ == x);
                            } else {
                                assert(before[k + 1]@ == x);
                            }
                        }
                        if old(self)@.contains(x) && x != id@ {
                            let k = choose|k: int| 0 <= k < before.len() && before[k]@ == x;
                            if k < i {
                                assert(self.ids@[k]@ == x);
                            } else {
                                assert(self.ids@[k - 1]@ == x);
                            }
                        }
                    }
                    assert(final(self)@ =~= old(self)@.remove(id@));
                }
            },
        }
    }
}

/// Holds the identifier of the most recently requested download that has not
/// been granted priority yet.
pub struct PriorityGate {
    latest: Option<String>,
}

/// Whether a task for `id` may go ahead when the token is `token`: nobody is
/// marked, or `id` itself is.
pub open spec fn may_claim(token: Option<Seq<char>>, id: Seq<char>) -> bool {
    token is None || token == Some(id)
}

/// The token after a task for `id` tried to claim priority: cleared when the
/// task was the one marked, untouched otherwise.
pub open spec fn after_claim(token: Option<Seq<char>>, id: Seq<char>) -> Option<Seq<char>> {
    if token == Some(id) {
        None
    } else {
        token
    }
}

impl PriorityGate {
    /// The current token, as a text.
    pub closed spec fn view(&self) -> Option<Seq<char>> {
        match self.latest {
            Some(s) => Some(s@),
            None => None,
        }
    }

    pub fn new() -> (r: Self)
        ensures
            r@ is None,
    {
        PriorityGate { latest: None }
    }

    /// Marks `id` as the most recent request, whatever was marked before.
    pub fn set_latest(&mut self, id: &str)
        ensures
            final(self)@ == Some(id@),
    {
        self.latest = Some(String::from_str(id));
    }

    /// Whether `id` is the one marked.
    pub fn is_latest(&self, id: &str) -> (r: bool)
        ensures
            r == (self@ == Some(id@)),
    {
        match &self.latest {
            Some(s) => s.as_str().eq(id),
            None => false,
        }
    }

    /// Asks for priority on behalf of `id`. With no token set the answer is
    /// yes and nothing changes; with `id` marked the answer is yes and the
    /// token is cleared; with another identifier marked the answer is no.
    pub fn try_claim(&mut self, id: &str) -> (granted: bool)
        ensures
            granted == may_claim(old(self)@, id@),
            final(self)@ == after_claim(old(self)@, id@),
    {
        if self.latest.is_none() {
            return true;
        }
        if self.is_latest(id) {
            self.latest = None;
            true
        } else {
            false
        }
    }

    /// Clears the token if it marks `id`; used when the result for `id` is
    /// picked up.
    pub fn release(&mut self, id: &str)
        ensures
            final(self)@ == after_claim(old(self)@, id@),
    {
        if self.is_latest(id) {
            self.latest = None;
        }
    }
}

/// Number of simultaneous downloads when nothing else is configured.
pub const DEFAULT_MAX_DOWNLOADS: usize = 3;

/// A counting limiter with a fixed number of interchangeable permits.
pub struct WorkerPool {
    capacity: usize,
    in_use: usize,
}

impl WorkerPool {
    /// Never more permits out than the pool has.
    pub open spec fn wf(&self) -> bool {
        self.in_use_view() <= self.capacity_view()
    }

    /// Number of permits the pool was made with.
    pub closed spec fn capacity_view(&self) -> nat {
        self.capacity as nat
    }

    /// Number of permits handed out and not yet returned.
    pub closed spec fn in_use_view(&self) -> nat {
        self.in_use as nat
    }

    pub fn new(capacity: usize) -> (r: Self)
        ensures
            r.wf(),
            r.capacity_view() == capacity,
            r.in_use_view() == 0,
    {
        WorkerPool { capacity, in_use: 0 }
    }

    pub fn capacity(&self) -> (r: usize)
        ensures
            r == self.capacity_view(),
    {
        self.capacity
    }

    pub fn in_use(&self) -> (r: usize)
        ensures
            r == self.in_use_view(),
    {
        self.in_use
    }

    /// Takes a permit if one is free.
    pub fn try_acquire(&mut self) -> (granted: bool)
        requires
            old(self).wf(),
        ensures
            final(self).wf(),
            final(self).capacity_view() == old(self).capacity_view(),
            granted == (old(self).in_use_view() < old(self).capacity_view()),
            final(self).in_use_view() == old(self).in_use_view() + (if granted {
                1nat
            } else {
                0nat
            }),
    {
        if self.in_use < self.capacity {
            self.in_use += 1;
            true
        } else {
            false
        }
    }

    /// Returns a permit. With none handed out nothing changes.
    pub fn release(&mut self)
        requires
            old(self).wf(),
        ensures
            final(self).wf(),
            final(self).capacity_view() == old(self).capacity_view(),
            final(self).in_use_view() == if old(self).in_use_view() > 0 {
                (old(self).in_use_view() - 1) as nat
            } else {
                0nat
            },
    {
        if self.in_use > 0 {
            self.in_use -= 1;
        }
    }
}

} // verus!
