//! Model of a deployment root: version directories plus the `current` pointer.
//!
//! A [`VersionStore`] mirrors the state of one deployment root on disk: the
//! set of version directories (each a label plus its creation tick) held in
//! newest-first order, and the label the `current` link names, if any.  The
//! caller that owns the real directory reads it into a store with
//! [`VersionStore::from_listing`], applies the operations here, and mirrors
//! each state change back onto the disk in the same order.

use vstd::prelude::*;

use crate::errors::PipelineError;

verus! {

/// A named, timestamped unit of deployed output: one version directory
/// under the deployment root.  For file-based deploys the label equals the
/// source commit short identifier.
pub struct Version {
    /// The version directory name.
    pub label: String,
    /// Creation tick of the version directory (the filesystem modification
    /// time mapped to a monotone integer scale); used for ordering.
    pub created_at: u64,
}

/// The versions stand in order of creation, newest first.
pub open spec fn sorted_newest_first(s: Seq<Version>) -> bool {
    forall|i: int, j: int|
        0 <= i < j < s.len() ==> #[trigger] s[i].created_at >= #[trigger] s[j].created_at
}

/// No two versions share a label.
pub open spec fn labels_unique(s: Seq<Version>) -> bool {
    forall|i: int, j: int|
        0 <= i < j < s.len() ==> #[trigger] s[i].label@ != #[trigger] s[j].label@
}

/// Some version in the sequence carries the given label.
pub open spec fn has_label(s: Seq<Version>, label: Seq<char>) -> bool {
    exists|i: int| 0 <= i < s.len() && #[trigger] s[i].label@ == label
}

/// No two versions share a creation tick.
pub open spec fn times_distinct(s: Seq<Version>) -> bool {
    forall|i: int, j: int|
        0 <= i < j < s.len() ==> #[trigger] s[i].created_at != #[trigger] s[j].created_at
}

/// The state of one deployment root.
pub struct VersionStore {
    /// Whether the deployment root directory itself exists.
    pub root_exists: bool,
    /// The version directories, newest first.
    pub versions: Vec<Version>,
    /// The label the `current` pointer names, or `None` when the pointer is
    /// absent.  An absent pointer means "no live version", never corruption.
    pub current: Option<String>,
}

impl VersionStore {
    /// Well-formedness: newest-first order, unique labels, and nothing
    /// recorded under a root that does not exist.
    pub open spec fn wf(self) -> bool {
        &&& sorted_newest_first(self.versions@)
        &&& labels_unique(self.versions@)
        &&& (!self.root_exists ==> self.versions@.len() == 0 && self.current is None)
    }

    /// Whether some version carries the given label.
    pub open spec fn spec_has(self, label: Seq<char>) -> bool {
        has_label(self.versions@, label)
    }

    /// The `current` pointer is absent or resolves to an existing version.
    pub open spec fn current_valid(self) -> bool {
        match self.current {
            Option::Some(l) => has_label(self.versions@, l@),
            Option::None => true,
        }
    }

    /// An empty store over a root that may or may not exist yet.
    pub fn empty(root_exists: bool) -> (s: VersionStore)
        ensures
            s.wf(),
            s.current_valid(),
            s.root_exists == root_exists,
            s.versions@ =~= Seq::<Version>::empty(),
            s.current is None,
    {
        VersionStore { root_exists, versions: Vec::new(), current: None }
    }

    /// Whether a version with this label exists.
    pub fn has_version(&self, label: &String) -> (r: bool)
        ensures
            r == self.spec_has(label@),
    {
        let mut i: usize = 0;
        while i < self.versions.len()
            invariant
                i <= self.versions@.len(),
                forall|k: int| 0 <= k < i ==> #[trigger] self.versions@[k].label@ != label@,
            decreases self.versions@.len() - i,
        {
            if self.versions[i].label == *label {
                assert(self.versions@[i as int].label@ == label@);
                return true;
            }
            i += 1;
        }
        false
    }

    /// Insert one version at its place in the newest-first order.
    #[verifier::rlimit(50)]
    fn insert_entry(&mut self, v: Version)
        requires
            old(self).wf(),
            old(self).root_exists,
            !old(self).spec_has(v.label@),
        ensures
            final(self).wf(),
            final(self).root_exists == old(self).root_exists,
            final(self).current == old(self).current,
            final(self).versions@.to_multiset() == old(self).versions@.to_multiset().insert(v),
            final(self).versions@.len() == old(self).versions@.len() + 1,
            forall|l: Seq<char>|
                #[trigger] final(self).spec_has(l) <==> old(self).spec_has(l) || l == v.label@,
            old(self).current_valid() ==> final(self).current_valid(),
            times_distinct(old(self).versions@) && (forall|k: int|
                0 <= k < old(self).versions@.len() ==> #[trigger] old(
                    self,
                ).versions@[k].created_at != v.created_at) ==> times_distinct(
                final(self).versions@,
            ),
    {
        let ghost olds = self.versions@;
        let mut j: usize = 0;
        while j < self.versions.len() && self.versions[j].created_at >= v.created_at
            invariant
                j <= self.versions@.len(),
                self == old(self),
                forall|k: int| 0 <= k < j ==> #[trigger] self.versions@[k].created_at >= v.created_at,
            decreases self.versions@.len() - j,
        {
            j += 1;
        }
        proof {
            // Everything at or past position j is older than v.
            if j < olds.len() {
                assert(olds[j as int].created_at < v.created_at);
                assert forall|k: int| j <= k < olds.len() implies
                    #[trigger] olds[k].created_at < v.created_at by {
                    if k > j {
                        assert(olds[j as int].created_at >= olds[k].created_at);
                    }
                }
            }
            // No existing version has v's label.
            assert forall|k: int| 0 <= k < olds.len() implies
                #[trigger] olds[k].label@ != v.label@ by {
                if olds[k].label@ == v.label@ {
                    assert(has_label(olds, v.label@));
                }
            }
            olds.insert_ensures(j as int, v);
        }
        self.versions.insert(j, v);
        proof {
            let news = self.versions@;
            assert(news == olds.insert(j as int, v));
            vstd::seq_lib::to_multiset_insert(olds, j as int, v);
            assert(sorted_newest_first(news)) by {
                assert forall|a: int, b: int| 0 <= a < b < news.len() implies
                    #[trigger] news[a].created_at >= #[trigger] news[b].created_at by {
                    if a < j && b < j {
                    } else if a == j {
                        assert(news[a] == v);
                        assert(news[b] == olds[b - 1]);
                    } else if b == j {
                        assert(news[b] == v);
                        assert(news[a] == olds[a]);
                    } else if a > j && b > j {
                        assert(news[a] == olds[a - 1]);
                        assert(news[b] == olds[b - 1]);
                    }
                }
            }
            assert(labels_unique(news)) by {
                assert forall|a: int, b: int| 0 <= a < b < news.len() implies
                    #[trigger] news[a].label@ != #[trigger] news[b].label@ by {
                    if a == j {
                        assert(news[a] == v);
                        assert(news[b] == olds[b - 1]);
                    } else if b == j {
                        assert(news[b] == v);
                        assert(news[a] == olds[a]);
                    } else {
                        let a0: int = if a < j { a } else { a - 1 };
                        let b0: int = if b < j { b } else { b - 1 };
                        assert(news[a] == olds[a0]);
                        assert(news[b] == olds[b0]);
                    }
                }
            }
            if times_distinct(olds) && (forall|k: int|
                0 <= k < olds.len() ==> #[trigger] olds[k].created_at != v.created_at) {
                assert(times_distinct(news)) by {
                    assert forall|a: int, b: int| 0 <= a < b < news.len() implies
                        #[trigger] news[a].created_at != #[trigger] news[b].created_at by {
                        if a == j {
                            assert(news[a] == v);
                            assert(news[b] == olds[b - 1]);
                        } else if b == j {
                            assert(news[b] == v);
                            assert(news[a] == olds[a]);
                        } else {
                            let a0: int = if a < j { a } else { a - 1 };
                            let b0: int = if b < j { b } else { b - 1 };
                            assert(news[a] == olds[a0]);
                            assert(news[b] == olds[b0]);
                            assert(olds[a0].created_at != olds[b0].created_at);
                        }
                    }
                }
            }
            assert forall|l: Seq<char>|
                #[trigger] self.spec_has(l) <==> (has_label(olds, l) || l == v.label@) by {
                if has_label(olds, l) {
                    let k = choose|k: int| 0 <= k < olds.len() && #[trigger] olds[k].label@ == l;
                    let k2: int = if k < j { k } else { k + 1 };
                    assert(news[k2].label@ == l);
                }
                if l == v.label@ {
                    assert(news[j as int].label@ == l);
                }
                if self.spec_has(l) {
                    let k = choose|k: int| 0 <= k < news.len() && #[trigger] news[k].label@ == l;
                    if k != j {
                        let k0: int = if k < j { k } else { k - 1 };
                        assert(olds[k0].label@ == l);
                    }
                }
            }
            if old(self).current_valid() {
                match &self.current {
                    Option::Some(l) => {
                        assert(has_label(olds, l@));
                        assert(self.spec_has(l@));
                    },
                    Option::None => {},
                }
            }
        }
    }

    /// Build the store from one directory listing of the deployment root.
    ///
    /// `entries` are the version directories found, in any order, with the
    /// `current` entry excluded; `current` is the label the pointer names if
    /// it is present.  A root that does not exist yields no entries and no
    /// pointer: an empty listing rather than an error.
    pub fn from_listing(root_exists: bool, entries: Vec<Version>, current: Option<String>) -> (s:
        VersionStore)
        requires
            labels_unique(entries@),
            !root_exists ==> entries@.len() == 0 && current is None,
        ensures
            s.wf(),
            s.root_exists == root_exists,
            s.current == current,
            s.versions@.to_multiset() == entries@.to_multiset(),
            s.versions@.len() == entries@.len(),
            forall|l: Seq<char>| #[trigger] s.spec_has(l) <==> has_label(entries@, l),
            times_distinct(entries@) ==> times_distinct(s.versions@),
    {
        let ghost orig = entries@;
        let mut entries = entries;
        let mut s = VersionStore { root_exists, versions: Vec::new(), current: None };
        proof {
            assert(s.versions@ =~= orig.skip(orig.len() as int));
        }
        while entries.len() > 0
            invariant
                s.wf(),
                s.root_exists == root_exists,
                s.current is None,
                entries@.len() <= orig.len(),
                entries@ == orig.subrange(0, entries@.len() as int),
                labels_unique(orig),
                !root_exists ==> orig.len() == 0,
                s.versions@.to_multiset() == orig.skip(entries@.len() as int).to_multiset(),
                s.versions@.len() == orig.len() - entries@.len(),
                forall|l: Seq<char>|
                    #[trigger] s.spec_has(l) <==> has_label(orig.skip(entries@.len() as int), l),
                times_distinct(orig) ==> times_distinct(s.versions@),
            decreases entries@.len(),
        {
            let ghost n = entries@.len() as int;
            let v = entries.pop().unwrap();
            let ghost vv = v;
            proof {
                assert(v == orig[n - 1]);
                assert(entries@ =~= orig.subrange(0, n - 1));
                // v's label is not among the already inserted tail.
                if s.spec_has(v.label@) {
                    let tail = orig.skip(n);
                    let k = choose|k: int|
                        0 <= k < tail.len() && #[trigger] tail[k].label@ == v.label@;
                    assert(orig[n + k].label@ == v.label@);
                    assert(orig[n - 1].label@ != orig[n + k].label@);
                }
                if orig.len() > 0 {
                    assert(root_exists);
                }
                // Under pairwise distinct ticks, v's tick is fresh in s.
                if times_distinct(orig) {
                    assert forall|k: int| 0 <= k < s.versions@.len() implies
                        #[trigger] s.versions@[k].created_at != v.created_at by {
                        broadcast use vstd::seq_lib::group_to_multiset_ensures;
                        let tail = orig.skip(n);
                        assert(s.versions@.contains(s.versions@[k]));
                        assert(s.versions@.to_multiset().count(s.versions@[k]) > 0);
                        assert(tail.contains(s.versions@[k]));
                        let m = choose|m: int|
                            0 <= m < tail.len() && #[trigger] tail[m] == s.versions@[k];
                        assert(orig[n + m] == s.versions@[k]);
                        assert(orig[n - 1].created_at != orig[n + m].created_at);
                    }
                }
            }
            s.insert_entry(v);
            proof {
                let tail_old = orig.skip(n);
                let tail_new = orig.skip(n - 1);
                assert(tail_new =~= tail_old.insert(0, vv));
                vstd::seq_lib::to_multiset_insert(tail_old, 0, vv);
                assert(s.versions@.to_multiset() == tail_new.to_multiset());
                assert forall|l: Seq<char>|
                    #[trigger] s.spec_has(l) <==> has_label(tail_new, l) by {
                    if has_label(tail_new, l) {
                        let k = choose|k: int|
                            0 <= k < tail_new.len() && #[trigger] tail_new[k].label@ == l;
                        if k == 0 {
                            assert(l == vv.label@);
                        } else {
                            assert(tail_old[k - 1].label@ == l);
                            assert(has_label(tail_old, l));
                        }
                    }
                    if s.spec_has(l) {
                        if has_label(tail_old, l) {
                            let k = choose|k: int|
                                0 <= k < tail_old.len() && #[trigger] tail_old[k].label@ == l;
                            assert(tail_new[k + 1].label@ == l);
                        } else {
                            assert(l == vv.label@);
                            assert(tail_new[0].label@ == l);
                        }
                    }
                }
            }
        }
        let ghost s0 = s;
        s.current = current;
        proof {
            assert(orig.skip(0) =~= orig);
            assert forall|l: Seq<char>| #[trigger] s.spec_has(l) <==> has_label(orig, l) by {
                assert(s0.spec_has(l) <==> has_label(orig.skip(0), l));
                assert(s.versions@ == s0.versions@);
            }
        }
        s
    }

    /// Ensure a version directory with this label exists, creating it with
    /// the given tick when it is new.
    ///
    /// Idempotent: redeploying an existing label reuses the same directory
    /// (it is overwritten in place, never deduplicated into a second entry),
    /// so the store is left unchanged.  Creating the first version also
    /// creates the root, as all missing parents are created.
    pub fn create_version(&mut self, label: &String, now: u64)
        requires
            old(self).wf(),
        ensures
            final(self).wf(),
            final(self).root_exists,
            final(self).current == old(self).current,
            final(self).spec_has(label@),
            old(self).spec_has(label@) ==> *final(self) == *old(self),
            !old(self).spec_has(label@) ==> {
                &&& final(self).versions@.to_multiset() == old(self).versions@.to_multiset().insert(
                    (Version { label: *label, created_at: now }),
                )
                &&& final(self).versions@.len() == old(self).versions@.len() + 1
            },
            forall|l: Seq<char>|
                #[trigger] final(self).spec_has(l) <==> old(self).spec_has(l) || l == label@,
            old(self).current_valid() ==> final(self).current_valid(),
    {
        if self.has_version(label) {
            proof {
                if !self.root_exists {
                    assert(self.versions@.len() == 0);
                    assert(!self.spec_has(label@));
                }
            }
            return ;
        }
        self.root_exists = true;
        let v = Version { label: label.clone(), created_at: now };
        self.insert_entry(v);
    }

    /// Repoint the `current` pointer to the named version.
    ///
    /// On disk this is a remove-then-link pair, so a crash between the two
    /// steps leaves the pointer absent ("no live version"), never dangling
    /// from this operation; the model records the completed repoint.
    pub fn set_current(&mut self, label: &String) -> (r: Result<(), PipelineError>)
        requires
            old(self).wf(),
        ensures
            final(self).wf(),
            final(self).versions == old(self).versions,
            final(self).root_exists == old(self).root_exists,
            r is Ok <==> old(self).spec_has(label@),
            old(self).spec_has(label@) ==> final(self).current == Some(*label)
                && final(self).current_valid(),
            !old(self).spec_has(label@) ==> *final(self) == *old(self) && r == Err::<
                (),
                PipelineError,
            >(PipelineError::TargetNotFound(*label)),
    {
        if self.has_version(label) {
            self.current = Some(label.clone());
            Ok(())
        } else {
            Err(PipelineError::TargetNotFound(label.clone()))
        }
    }

    /// Remove the named version, if it exists.
    ///
    /// The `current` pointer is not touched even when it names the removed
    /// version; on disk that leaves a dangling link, which readers treat as
    /// "no live version".
    pub fn delete_version(&mut self, label: &String)
        requires
            old(self).wf(),
        ensures
            final(self).wf(),
            final(self).root_exists == old(self).root_exists,
            final(self).current == old(self).current,
            !final(self).spec_has(label@),
            !old(self).spec_has(label@) ==> *final(self) == *old(self),
            old(self).spec_has(label@) ==> exists|i: int|
                0 <= i < old(self).versions@.len() && old(self).versions@[i].label@ == label@
                    && final(self).versions@ == old(self).versions@.remove(i),
            forall|l: Seq<char>|
                #[trigger] final(self).spec_has(l) <==> old(self).spec_has(l) && l != label@,
    {
        let ghost olds = self.versions@;
        let mut i: usize = 0;
        while i < self.versions.len()
            invariant
                i <= self.versions@.len(),
                self.versions == old(self).versions,
                self.versions@ == olds,
                self.current == old(self).current,
                self.root_exists == old(self).root_exists,
                old(self).wf(),
                forall|k: int| 0 <= k < i ==> #[trigger] self.versions@[k].label@ != label@,
            decreases self.versions@.len() - i,
        {
            if self.versions[i].label == *label {
                proof {
                    assert(olds[i as int].label@ == label@);
                    olds.remove_ensures(i as int);
                }
                self.versions.remove(i);
                proof {
                    let news = self.versions@;
                    assert(news == olds.remove(i as int));
                    assert(sorted_newest_first(news)) by {
                        assert forall|a: int, b: int| 0 <= a < b < news.len() implies
                            #[trigger] news[a].created_at >= #[trigger] news[b].created_at by {
                            let a0: int = if a < i { a } else { a + 1 };
                            let b0: int = if b < i { b } else { b + 1 };
                            assert(news[a] == olds[a0]);
                            assert(news[b] == olds[b0]);
                            assert(olds[a0].created_at >= olds[b0].created_at);
                        }
                    }
                    assert(labels_unique(news)) by {
                        assert forall|a: int, b: int| 0 <= a < b < news.len() implies
                            #[trigger] news[a].label@ != #[trigger] news[b].label@ by {
                            let a0: int = if a < i { a } else { a + 1 };
                            let b0: int = if b < i { b } else { b + 1 };
                            assert(news[a] == olds[a0]);
                            assert(news[b] == olds[b0]);
                            assert(olds[a0].label@ != olds[b0].label@);
                        }
                    }
                    assert forall|l: Seq<char>|
                        #[trigger] self.spec_has(l) <==> (has_label(olds, l) && l != label@) by {
                        if self.spec_has(l) {
                            let k = choose|k: int|
                                0 <= k < news.len() && #[trigger] news[k].label@ == l;
                            let k0: int = if k < i { k } else { k + 1 };
                            assert(olds[k0].label@ == l);
                            if l == label@ {
                                assert(olds[k0].label@ == olds[i as int].label@);
                            }
                        }
                        if has_label(olds, l) && l != label@ {
                            let k = choose|k: int|
                                0 <= k < olds.len() && #[trigger] olds[k].label@ == l;
                            assert(k != i);
                            let k2: int = if k < i { k } else { k - 1 };
                            assert(news[k2].label@ == l);
                        }
                    }
                }
                return ;
            }
            i += 1;
        }
        proof {
            assert(!self.spec_has(label@));
        }
    }

    /// Roll the `current` pointer back to the second-newest version, the
    /// predecessor of the one just deployed, and return its label.
    ///
    /// With fewer than two versions there is nothing to return to: the call
    /// fails and the store, the pointer included, is left unchanged.
    pub fn rollback_to_previous(&mut self) -> (r: Result<String, PipelineError>)
        requires
            old(self).wf(),
        ensures
            final(self).wf(),
            final(self).versions == old(self).versions,
            final(self).root_exists == old(self).root_exists,
            old(self).versions@.len() < 2 ==> *final(self) == *old(self) && r == Err::<
                String,
                PipelineError,
            >(PipelineError::NoPreviousVersion),
            old(self).versions@.len() >= 2 ==> r == Ok::<String, PipelineError>(
                old(self).versions@[1].label,
            ) && final(self).current == Some(old(self).versions@[1].label)
                && final(self).current_valid(),
    {
        if self.versions.len() < 2 {
            return Err(PipelineError::NoPreviousVersion);
        }
        let label = self.versions[1].label.clone();
        proof {
            assert(self.versions@[1].label@ == label@);
            assert(self.spec_has(label@));
        }
        let res = self.set_current(&label);
        proof {
            assert(res is Ok);
        }
        Ok(label)
    }

    /// Repoint `current` to the named version, wherever it stands in the
    /// order; rolling forward or to an arbitrary historical version is
    /// allowed.  An unknown label fails and leaves the pointer unchanged.
    pub fn rollback_to_version(&mut self, label: &String) -> (r: Result<(), PipelineError>)
        requires
            old(self).wf(),
        ensures
            final(self).wf(),
            final(self).versions == old(self).versions,
            final(self).root_exists == old(self).root_exists,
            r is Ok <==> old(self).spec_has(label@),
            old(self).spec_has(label@) ==> final(self).current == Some(*label)
                && final(self).current_valid(),
            !old(self).spec_has(label@) ==> *final(self) == *old(self) && r == Err::<
                (),
                PipelineError,
            >(PipelineError::VersionNotFound(*label)),
    {
        match self.set_current(label) {
            Ok(()) => Ok(()),
            Err(_) => Err(PipelineError::VersionNotFound(label.clone())),
        }
    }

    /// Keep the `keep` newest versions and drop every older one from the
    /// store, returning the dropped labels newest first.
    ///
    /// With at most `keep` versions this is a no-op.  Each returned label is
    /// one directory for the caller to remove; removals are independent and
    /// best-effort, so a failure on one must not stop the others, and the
    /// first error is reported after all have been attempted.
    pub fn prune_old_versions(&mut self, keep: usize) -> (deleted: Vec<String>)
        requires
            old(self).wf(),
        ensures
            final(self).wf(),
            final(self).root_exists == old(self).root_exists,
            final(self).current == old(self).current,
            old(self).versions@.len() <= keep ==> *final(self) == *old(self),
            old(self).versions@.len() > keep ==> final(self).versions@ == old(
                self,
            ).versions@.subrange(0, keep as int),
            deleted@.len() == if old(self).versions@.len() <= keep {
                0int
            } else {
                old(self).versions@.len() - keep
            },
            forall|i: int|
                0 <= i < deleted@.len() ==> #[trigger] deleted@[i]@ == old(self).versions@[keep
                    + i].label@,
    {
        let mut deleted: Vec<String> = Vec::new();
        if self.versions.len() <= keep {
            return deleted;
        }
        let mut i: usize = keep;
        while i < self.versions.len()
            invariant
                keep <= i <= self.versions@.len(),
                self.versions@ == old(self).versions@,
                self.current == old(self).current,
                self.root_exists == old(self).root_exists,
                deleted@.len() == i - keep,
                forall|k: int|
                    0 <= k < deleted@.len() ==> #[trigger] deleted@[k]@ == self.versions@[keep
                        + k].label@,
            decreases self.versions@.len() - i,
        {
            deleted.push(self.versions[i].label.clone());
            i += 1;
        }
        self.versions.truncate(keep);
        proof {
            let news = self.versions@;
            let olds = old(self).versions@;
            assert(news == olds.subrange(0, keep as int));
            assert(sorted_newest_first(news));
            assert(labels_unique(news));
        }
        deleted
    }

    /// The ordered version listing: labels newest first, the `current`
    /// entry never among them.
    pub fn list_versions(&self) -> (r: Vec<String>)
        ensures
            r@.len() == self.versions@.len(),
            forall|i: int| 0 <= i < r@.len() ==> #[trigger] r@[i]@ == self.versions@[i].label@,
    {
        let mut r: Vec<String> = Vec::new();
        let mut i: usize = 0;
        while i < self.versions.len()
            invariant
                i <= self.versions@.len(),
                r@.len() == i,
                forall|k: int| 0 <= k < i ==> #[trigger] r@[k]@ == self.versions@[k].label@,
            decreases self.versions@.len() - i,
        {
            r.push(self.versions[i].label.clone());
            i += 1;
        }
        r
    }
}

/// Law: in a well-formed store whose versions carry pairwise distinct
/// creation ticks, the listing is strictly newest-first.
pub proof fn lemma_listing_strictly_newest_first(s: VersionStore)
    requires
        s.wf(),
        times_distinct(s.versions@),
    ensures
        forall|i: int, j: int|
            0 <= i < j < s.versions@.len() ==> #[trigger] s.versions@[i].created_at
                > #[trigger] s.versions@[j].created_at,
{
}

} // verus!
