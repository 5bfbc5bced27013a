//! The watch registry: the set of currently watched paths.
//!
//! Paths are kept without duplicates; the view of the registry is the
//! mathematical set of path character sequences. Insertion is
//! idempotent and removal of an absent path is a no-op, so the
//! registry always holds exactly the paths watched so far minus those
//! since unwatched, whatever the order of the calls.

use vstd::prelude::*;

verus! {

/// The set of watched paths, with uniqueness enforced on insertion.
pub struct WatchRegistry {
    paths: Vec<String>,
}

impl View for WatchRegistry {
    type V = Set<Seq<char>>;

    closed spec fn view(&self) -> Set<Seq<char>> {
        Set::new(|p: Seq<char>| exists|i: int| 0 <= i < self.paths@.len() && self.paths@[i]@ == p)
    }
}

impl WatchRegistry {
    /// No two stored entries hold the same path.
    pub closed spec fn wf(&self) -> bool {
        forall|i: int, j: int|
            0 <= i < j < self.paths@.len() ==> self.paths@[i]@ != self.paths@[j]@
    }

    /// A fresh registry watches nothing.
    pub fn new() -> (r: WatchRegistry)
        ensures
            r.wf(),
            r@ == Set::<Seq<char>>::empty(),
    {
        let r = WatchRegistry { paths: Vec::new() };
        proof {
            assert(r@ =~= Set::<Seq<char>>::empty());
        }
        r
    }

    /// Whether `path` is currently watched.
    pub fn contains(&self, path: &String) -> (b: bool)
        ensures
            b == self@.contains(path@),
    {
        let mut i: usize = 0;
        while i < self.paths.len()
            invariant
                0 <= i <= self.paths@.len(),
                forall|k: int| 0 <= k < i ==> self.paths@[k]@ != path@,
            decreases self.paths@.len() - i,
        {
            if self.paths[i].eq(path) {
                return true;
            }
            i += 1;
        }
        false
    }

    /// Add `path` to the set; adding an already-watched path changes
    /// nothing (no duplicate entries ever arise).
    pub fn insert(&mut self, path: String)
        requires
            old(self).wf(),
        ensures
            final(self).wf(),
            final(self)@ == old(self)@.insert(path@),
    {
        if !self.contains(&path) {
            let ghost before = self.paths@;
            self.paths.push(path);
            proof {
                assert forall|p: Seq<char>| final(self)@.contains(p)
                    <==> old(self)@.insert(path@).contains(p) by {
                    if final(self)@.contains(p) {
                        let i = choose|i: int|
                            0 <= i < self.paths@.len() && self.paths@[i]@ == p;
                        if i < before.len() {
                            assert(old(self)@.contains(p));
                        }
                    }
                    if old(self)@.contains(p) {
                        let i = choose|i: int|
                            0 <= i < before.len() && before[i]@ == p;
                        assert(self.paths@[i]@ == p);
                    }
                    if p == path@ {
                        assert(self.paths@[before.len() as int]@ == p);
                    }
                }
                assert(final(self)@ =~= old(self)@.insert(path@));
            }
        } else {
            proof {
                assert(final(self)@ =~= old(self)@.insert(path@));
            }
        }
    }

    /// Remove `path` from the set; removing an absent path changes
    /// nothing.
    pub fn remove(&mut self, path: &String)
        requires
            old(self).wf(),
        ensures
            final(self).wf(),
            final(self)@ == old(self)@.remove(path@),
    {
        let mut i: usize = 0;
        while i < self.paths.len()
            invariant
                old(self).wf(),
                self.paths@ == old(self).paths@,
                0 <= i <= self.paths@.len(),
                forall|k: int| 0 <= k < i ==> self.paths@[k]@ != path@,
            decreases self.paths@.len() - i,
        {
            if self.paths[i].eq(path) {
                let ghost before = self.paths@;
                self.paths.remove(i);
                proof {
                    assert forall|p: Seq<char>| final(self)@.contains(p)
                        <==> old(self)@.remove(path@).contains(p) by {
                        if final(self)@.contains(p) {
                            let k = choose|k: int|
                                0 <= k < self.paths@.len() && self.paths@[k]@ == p;
                            if k < i {
                                assert(before[k]@ == p);
                            } else {
                                assert(before[k + 1]@ == p);
                            }
                        }
                        if old(self)@.remove(path@).contains(p) {
                            let k = choose|k: int|
                                0 <= k < before.len() && before[k]@ == p;
                            if k < i {
                                assert(self.paths@[k]@ == p);
                            } else {
                                assert(k != i);
                                assert(self.paths@[k - 1]@ == p);
                            }
                        }
                    }
                    assert(final(self)@ =~= old(self)@.remove(path@));
                }
                return;
            }
            i += 1;
        }
        proof {
            assert(!old(self)@.contains(path@));
            assert(final(self)@ =~= old(self)@.remove(path@));
        }
    }


    /// A snapshot of the watched paths: every watched path appears
    /// exactly once, and nothing else appears.
    pub fn snapshot(&self) -> (r: Vec<String>)
        requires
            self.wf(),
        ensures
            forall|i: int, j: int| 0 <= i < j < r@.len() ==> r@[i]@ != r@[j]@,
            forall|i: int| 0 <= i < r@.len() ==> self@.contains(#[trigger] r@[i]@),
            forall|p: Seq<char>| self@.contains(p) ==> exists|i: int| 0 <= i < r@.len() && r@[i]@ == p,
    {
        let mut r: Vec<String> = Vec::new();
        let mut i: usize = 0;
        while i < self.paths.len()
            invariant
                self.wf(),
                0 <= i <= self.paths@.len(),
                r@.len() == i,
                forall|k: int| 0 <= k < i ==> r@[k]@ == self.paths@[k]@,
            decreases self.paths@.len() - i,
        {
            r.push(self.paths[i].clone());
            i += 1;
        }
        proof {
            assert forall|p: Seq<char>| self@.contains(p) implies exists|k: int|
                0 <= k < r@.len() && r@[k]@ == p by {
                let k = choose|k: int| 0 <= k < self.paths@.len() && self.paths@[k]@ == p;
                assert(r@[k]@ == p);
            }
        }
        r
    }
}

/// One registry-level call, as it acts on the watched-path set.
pub enum RegistryOp {
    Watch(Seq<char>),
    Unwatch(Seq<char>),
}

/// The watched-path set after a sequence of calls, starting from
/// nothing watched: each watch inserts its path, each unwatch removes
/// it.
pub open spec fn registry_after(ops: Seq<RegistryOp>) -> Set<Seq<char>>
    decreases ops.len(),
{
    if ops.len() == 0 {
        Set::empty()
    } else {
        let prior = registry_after(ops.drop_last());
        match ops.last() {
            RegistryOp::Watch(p) => prior.insert(p),
            RegistryOp::Unwatch(p) => prior.remove(p),
        }
    }
}

/// Whether `p` was watched at some point of the sequence and never
/// unwatched afterwards.
pub open spec fn watched_and_kept(ops: Seq<RegistryOp>, p: Seq<char>) -> bool {
    exists|i: int|
        0 <= i < ops.len() && ops[i] == (RegistryOp::Watch(p)) && (forall|j: int|
            i < j < ops.len() ==> ops[j] != (RegistryOp::Unwatch(p)))
}

/// Law: whatever the order of the calls, after any sequence of watch
/// and unwatch calls the registry holds exactly the paths watched at
/// some point and not unwatched since.
pub proof fn lemma_registry_set_semantics(ops: Seq<RegistryOp>, p: Seq<char>)
    ensures
        registry_after(ops).contains(p) <==> watched_and_kept(ops, p),
    decreases ops.len(),
{
    if ops.len() == 0 {
    } else {
        let front = ops.drop_last();
        let last = ops.len() - 1;
        lemma_registry_set_semantics(front, p);
        match ops.last() {
            RegistryOp::Watch(q) => {
                if p == q {
                    assert(ops[last] == (RegistryOp::Watch(p)));
                    assert(forall|j: int| last < j < ops.len() ==> ops[j] != (RegistryOp::Unwatch(p)));
                    assert(watched_and_kept(ops, p));
                } else {
                    if watched_and_kept(front, p) {
                        let i = choose|i: int|
                            0 <= i < front.len() && front[i] == (RegistryOp::Watch(p)) && (forall|
                                j: int,
                            | i < j < front.len() ==> front[j] != (RegistryOp::Unwatch(p)));
                        assert(ops[i] == (RegistryOp::Watch(p)));
                        assert forall|j: int| i < j < ops.len() implies ops[j] != (
                        RegistryOp::Unwatch(p)) by {
                            if j < last {
                                assert(front[j] != (RegistryOp::Unwatch(p)));
                            }
                        }
                        assert(watched_and_kept(ops, p));
                    }
                    if watched_and_kept(ops, p) {
                        let i = choose|i: int|
                            0 <= i < ops.len() && ops[i] == (RegistryOp::Watch(p)) && (forall|
                                j: int,
                            | i < j < ops.len() ==> ops[j] != (RegistryOp::Unwatch(p)));
                        assert(i < last);
                        assert(front[i] == (RegistryOp::Watch(p)));
                        assert(watched_and_kept(front, p));
                    }
                }
            },
            RegistryOp::Unwatch(q) => {
                if p == q {
                    if watched_and_kept(ops, p) {
                        let i = choose|i: int|
                            0 <= i < ops.len() && ops[i] == (RegistryOp::Watch(p)) && (forall|
                                j: int,
                            | i < j < ops.len() ==> ops[j] != (RegistryOp::Unwatch(p)));
                        assert(i < last);
                        assert(ops[last] == (RegistryOp::Unwatch(p)));
                        assert(false);
                    }
                } else {
                    if watched_and_kept(front, p) {
                        let i = choose|i: int|
                            0 <= i < front.len() && front[i] == (RegistryOp::Watch(p)) && (forall|
                                j: int,
                            | i < j < front.len() ==> front[j] != (RegistryOp::Unwatch(p)));
                        assert(ops[i] == (RegistryOp::Watch(p)));
                        assert forall|j: int| i < j < ops.len() implies ops[j] != (
                        RegistryOp::Unwatch(p)) by {
                            if j < last {
                                assert(front[j] != (RegistryOp::Unwatch(p)));
                            }
                        }
                        assert(watched_and_kept(ops, p));
                    }
                    if watched_and_kept(ops, p) {
                        let i = choose|i: int|
                            0 <= i < ops.len() && ops[i] == (RegistryOp::Watch(p)) && (forall|
                                j: int,
                            | i < j < ops.len() ==> ops[j] != (RegistryOp::Unwatch(p)));
                        assert(i < last);
                        assert(front[i] == (RegistryOp::Watch(p)));
                        assert(watched_and_kept(front, p));
                    }
                }
            },
        }
    }
}

/// Law: watching a path twice yields the same set as watching it
/// once — no duplicate entry ever arises.
pub proof fn lemma_watch_idempotent(s: Set<Seq<char>>, p: Seq<char>)
    ensures
        s.insert(p).insert(p) == s.insert(p),
{
    assert(s.insert(p).insert(p) =~= s.insert(p));
}

} // verus!
