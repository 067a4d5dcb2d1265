use vstd::prelude::*;

use std::collections::{HashMap, HashSet};
use vstd::std_specs::iter::IteratorSpec;

verus! {

broadcast use {vstd::std_specs::hash::group_hash_axioms, vstd::set_lib::full_set_properties};

/// The members of a set of process ids, each once, in the set's own
/// order.
pub fn hash_set_elements(set: &HashSet<u32>) -> (v: Vec<u32>)
    ensures
        v@.to_set() == set@,
        v@.no_duplicates(),
{
    let ghost keys = vstd::std_specs::hash::spec_hash_keys_iter(set).remaining().unref();
    let mut out: Vec<u32> = Vec::new();
    for process_id in it: set.iter()
        invariant
            it.seq().unref() == keys,
            keys.to_set() == set@,
            keys.no_duplicates(),
            out@ == keys.take(it.index()),
    {
        out.push(*process_id);
        assert(keys.take(it.index() + 1) =~= keys.take(it.index()).push(*process_id));
    }
    assert(out@ =~= keys);
    out
}

/// A running process and its parent, as a process snapshot lists them.
#[derive(Debug, Clone, Copy, PartialEq, Eq, Structural)]
pub struct ProcessTreeEntry {
    pub process_id: u32,
    pub parent_process_id: u32,
}

/// The processes of a snapshot, with the children of each parent.
#[derive(Debug)]
pub struct ProcessTreeChildIndex {
    process_ids: HashSet<u32>,
    children_by_parent: HashMap<u32, Vec<u32>>,
}

/// `entries` lists a process `child` whose parent is `parent`.
pub open spec fn entries_have_child(entries: Seq<ProcessTreeEntry>, child: u32, parent: u32) -> bool {
    exists|i: int|
        0 <= i < entries.len() && entries[i].process_id == child && child != 0
            && entries[i].parent_process_id == parent
}

/// The non-null process ids that `entries` lists.
pub open spec fn entry_process_ids(entries: Seq<ProcessTreeEntry>) -> Set<u32> {
    Set::new(
        |p: u32| p != 0 && exists|i: int| 0 <= i < entries.len() && entries[i].process_id == p,
    )
}

impl ProcessTreeChildIndex {
    /// The processes of the snapshot.
    pub closed spec fn spec_process_ids(&self) -> Set<u32> {
        self.process_ids@
    }

    /// `child` is listed as a child of `parent`.
    pub closed spec fn is_child(&self, child: u32, parent: u32) -> bool {
        self.children_by_parent@.contains_key(parent) && self.children_by_parent@[parent]@.contains(
            child,
        )
    }

    /// A chain of processes, each the child of the one before.
    pub open spec fn is_descent(&self, path: Seq<u32>) -> bool {
        forall|i: int| 0 <= i < path.len() - 1 ==> #[trigger] self.is_child(path[i + 1], path[i])
    }

    /// `process_id` is one of `roots` or descends from one of them.
    pub open spec fn descends_from(&self, roots: Set<u32>, process_id: u32) -> bool {
        exists|path: Seq<u32>|
            path.len() > 0 && roots.contains(path[0]) && path.last() == process_id
                && #[trigger] self.is_descent(path)
    }

    /// `roots` and all their descendants.
    pub open spec fn descendant_closure(&self, roots: Set<u32>) -> Set<u32> {
        Set::new(|p: u32| self.descends_from(roots, p))
    }

    pub fn new() -> (r: Self)
        ensures
            r.spec_process_ids() == Set::<u32>::empty(),
            forall|c: u32, p: u32| !r.is_child(c, p),
    {
        ProcessTreeChildIndex { process_ids: HashSet::new(), children_by_parent: HashMap::new() }
    }

    /// Records a process; process id 0 (the idle process) is skipped.
    pub fn insert(&mut self, entry: ProcessTreeEntry)
        ensures
            entry.process_id == 0 ==> final(self).spec_process_ids() == old(self).spec_process_ids(),
            entry.process_id != 0 ==> final(self).spec_process_ids() == old(
                self,
            ).spec_process_ids().insert(entry.process_id),
            forall|c: u32, p: u32|
                #[trigger] final(self).is_child(c, p) <==> (old(self).is_child(c, p) || (
                entry.process_id != 0 && c == entry.process_id && p == entry.parent_process_id)),
    {
        if entry.process_id == 0 {
            return;
        }
        self.process_ids.insert(entry.process_id);
        let ghost old_map = self.children_by_parent@;
        let mut children = match self.children_by_parent.remove(&entry.parent_process_id) {
            Some(children) => children,
            None => Vec::new(),
        };
        let ghost before = children@;
        children.push(entry.process_id);
        self.children_by_parent.insert(entry.parent_process_id, children);
        proof {
            assert forall|c: u32, p: u32| #[trigger]
                self.is_child(c, p) <==> (old(self).is_child(c, p) || (c == entry.process_id && p
                    == entry.parent_process_id)) by {
                if p == entry.parent_process_id {
                    assert(self.children_by_parent@[p]@ == before.push(entry.process_id));
                    if old_map.contains_key(p) {
                        assert(before == old_map[p]@);
                    } else {
                        assert(before == Seq::<u32>::empty());
                    }
                    if before.push(entry.process_id).contains(c) && c != entry.process_id {
                        let k = choose|k: int|
                            0 <= k < before.push(entry.process_id).len() && before.push(
                                entry.process_id,
                            )[k] == c;
                        assert(before[k] == c);
                    }
                    if before.contains(c) {
                        let k = choose|k: int| 0 <= k < before.len() && before[k] == c;
                        assert(before.push(entry.process_id)[k] == c);
                    }
                    if c == entry.process_id {
                        assert(before.push(entry.process_id)[before.len() as int] == c);
                    }
                }
            }
        }
    }

    /// The index of a snapshot's entries.
    pub fn from_entries(entries: &[ProcessTreeEntry]) -> (r: Self)
        ensures
            r.spec_process_ids() == entry_process_ids(entries@),
            forall|c: u32, p: u32| #[trigger] r.is_child(c, p) <==> entries_have_child(entries@, c, p),
    {
        let mut index = ProcessTreeChildIndex::new();
        let mut k: usize = 0;
        while k < entries.len()
            invariant
                k <= entries@.len(),
                index.spec_process_ids() == entry_process_ids(entries@.subrange(0, k as int)),
                forall|c: u32, p: u32| #[trigger]
                    index.is_child(c, p) <==> entries_have_child(
                        entries@.subrange(0, k as int),
                        c,
                        p,
                    ),
            decreases entries@.len() - k,
        {
            let entry = entries[k];
            let ghost before = entries@.subrange(0, k as int);
            let ghost after = entries@.subrange(0, k + 1 as int);
            index.insert(entry);
            proof {
                assert(after =~= before.push(entry));
                assert forall|c: u32, p: u32| #[trigger]
                    index.is_child(c, p) <==> entries_have_child(after, c, p) by {
                    if entries_have_child(before, c, p) {
                        let i = choose|i: int|
                            0 <= i < before.len() && before[i].process_id == c && c != 0
                                && before[i].parent_process_id == p;
                        assert(after[i] == before[i]);
                    }
                    if entries_have_child(after, c, p) {
                        let i = choose|i: int|
                            0 <= i < after.len() && after[i].process_id == c && c != 0
                                && after[i].parent_process_id == p;
                        if i < before.len() {
                            assert(before[i] == after[i]);
                        }
                    }
                    if entry.process_id != 0 && c == entry.process_id && p
                        == entry.parent_process_id {
                        assert(after[k as int] == entry);
                    }
                }
                assert forall|pid: u32|
                    index.spec_process_ids().contains(pid) <==> entry_process_ids(after).contains(
                        pid,
                    ) by {
                    if pid != 0 && exists|i: int|
                        0 <= i < before.len() && before[i].process_id == pid {
                        let i = choose|i: int| 0 <= i < before.len() && before[i].process_id == pid;
                        assert(after[i] == before[i]);
                    }
                    if pid != 0 && exists|i: int|
                        0 <= i < after.len() && after[i].process_id == pid {
                        let i = choose|i: int| 0 <= i < after.len() && after[i].process_id == pid;
                        if i < before.len() {
                            assert(before[i] == after[i]);
                        }
                    }
                    if entry.process_id != 0 && pid == entry.process_id {
                        assert(after[k as int] == entry);
                    }
                }
                assert(index.spec_process_ids() =~= entry_process_ids(after));
            }
            k += 1;
        }
        assert(entries@.subrange(0, entries@.len() as int) =~= entries@);
        index
    }

    /// A descent to `parent` extends to its child.
    proof fn lemma_descends_to_child(&self, roots: Set<u32>, parent: u32, child: u32)
        requires
            self.descends_from(roots, parent),
            self.is_child(child, parent),
        ensures
            self.descends_from(roots, child),
    {
        let path = choose|path: Seq<u32>|
            path.len() > 0 && roots.contains(path[0]) && path.last() == parent
                && #[trigger] self.is_descent(path);
        let longer = path.push(child);
        assert forall|i: int| 0 <= i < longer.len() - 1 implies #[trigger] self.is_child(
            longer[i + 1],
            longer[i],
        ) by {
            if i < path.len() - 1 {
                assert(self.is_child(path[i + 1], path[i]));
            }
        }
        assert(self.is_descent(longer));
    }

    /// A set that holds the roots and the children of each of its members
    /// holds every descendant of the roots.
    proof fn lemma_closed_set_holds_descent(&self, roots: Set<u32>, closed: Set<u32>, path: Seq<u32>)
        requires
            roots.subset_of(closed),
            forall|p: u32, c: u32| closed.contains(p) && self.is_child(c, p) ==> closed.contains(c),
            path.len() > 0,
            roots.contains(path[0]),
            self.is_descent(path),
        ensures
            closed.contains(path.last()),
        decreases path.len(),
    {
        if path.len() > 1 {
            let shorter = path.drop_last();
            assert forall|i: int| 0 <= i < shorter.len() - 1 implies #[trigger] self.is_child(
                shorter[i + 1],
                shorter[i],
            ) by {
                assert(self.is_child(path[i + 1], path[i]));
            }
            self.lemma_closed_set_holds_descent(roots, closed, shorter);
            let i = path.len() - 2;
            assert(self.is_child(path[i + 1], path[i]));
        }
    }

    /// Every tracked process off the stack has its children tracked.
    pub open spec fn expanded_off_stack(&self, members: Set<u32>, stack: Seq<u32>) -> bool {
        forall|p: u32, c: u32|
            members.contains(p) && !stack.contains(p) && #[trigger] self.is_child(c, p)
                ==> members.contains(c)
    }

    /// The part of `discovered` after `start` lists each process of
    /// `added` once.
    pub open spec fn lists_added(discovered: Seq<u32>, start: Seq<u32>, added: Set<u32>) -> bool {
        &&& discovered.len() >= start.len()
        &&& discovered.subrange(0, start.len() as int) == start
        &&& discovered.subrange(start.len() as int, discovered.len() as int).no_duplicates()
        &&& discovered.subrange(start.len() as int, discovered.len() as int).to_set() == added
    }

    /// Appending a process not yet added keeps the list exact.
    proof fn lemma_lists_added_push(discovered: Seq<u32>, start: Seq<u32>, added: Set<u32>, x: u32)
        requires
            Self::lists_added(discovered, start, added),
            !added.contains(x),
        ensures
            Self::lists_added(discovered.push(x), start, added.insert(x)),
    {
        let part = discovered.subrange(start.len() as int, discovered.len() as int);
        let next = discovered.push(x);
        assert(next.subrange(start.len() as int, next.len() as int) =~= part.push(x));
        assert(next.subrange(0, start.len() as int) =~= discovered.subrange(0, start.len() as int));
        assert(!part.contains(x)) by {
            if part.contains(x) {
                assert(part.to_set().contains(x));
            }
        }
        assert forall|i: int, j: int| 0 <= i < j < part.push(x).len() implies part.push(x)[i]
            != part.push(x)[j] by {
            if j == part.len() {
                assert(part.push(x)[i] == part[i]);
                assert(part.contains(part[i]));
            }
        }
        part.lemma_push_to_set_commute(x);
    }

    /// A process pushed on the stack keeps every process it held.
    proof fn lemma_push_keeps_members(stack: Seq<u32>, x: u32, y: u32)
        requires
            stack.contains(y),
        ensures
            stack.push(x).contains(y),
    {
        let k = choose|k: int| 0 <= k < stack.len() && stack[k] == y;
        assert(stack.push(x)[k] == y);
    }

    /// Adds to `tracked_process_ids` every descendant of the processes it
    /// holds, appending each newly tracked process to `discovered` once.
    /// `stack` is scratch space, left empty.
    pub fn append_new_descendants(
        &self,
        tracked_process_ids: &mut HashSet<u32>,
        discovered: &mut Vec<u32>,
        stack: &mut Vec<u32>,
    )
        ensures
            final(tracked_process_ids)@ == self.descendant_closure(old(tracked_process_ids)@),
            Self::lists_added(
                final(discovered)@,
                old(discovered)@,
                final(tracked_process_ids)@.difference(old(tracked_process_ids)@),
            ),
            final(stack)@.len() == 0,
    {
        let ghost roots = tracked_process_ids@;
        let ghost start = discovered@;
        stack.clear();
        let initial = hash_set_elements(tracked_process_ids);
        let mut q: usize = 0;
        while q < initial.len()
            invariant
                q <= initial@.len(),
                stack@ == initial@.subrange(0, q as int),
            decreases initial@.len() - q,
        {
            stack.push(initial[q]);
            assert(initial@.subrange(0, q + 1 as int) =~= initial@.subrange(0, q as int).push(
                initial@[q as int],
            ));
            q += 1;
        }
        assert(stack@ =~= initial@);
        proof {
            assert forall|p: u32| tracked_process_ids@.contains(p) implies stack@.contains(p) by {
                assert(initial@.to_set().contains(p));
            }
            assert forall|p: u32| roots.contains(p) implies self.descends_from(roots, p) by {
                let path = seq![p];
                assert(self.is_descent(path));
            }
            assert(discovered@ == start);
            assert(discovered@.subrange(0, start.len() as int) =~= start);
            assert(discovered@.subrange(start.len() as int, discovered@.len() as int)
                =~= Seq::<u32>::empty());
            assert(Seq::<u32>::empty().to_set() =~= Set::<u32>::empty());
            assert(roots.difference(roots) =~= Set::<u32>::empty());
        }
        loop
            invariant
                roots.subset_of(tracked_process_ids@),
                forall|p: u32| #[trigger]
                    tracked_process_ids@.contains(p) ==> self.descends_from(roots, p),
                forall|i: int| 0 <= i < stack@.len() ==> tracked_process_ids@.contains(
                    #[trigger] stack@[i],
                ),
                self.expanded_off_stack(tracked_process_ids@, stack@),
                Self::lists_added(discovered@, start, tracked_process_ids@.difference(roots)),
            ensures
                stack@.len() == 0,
                roots.subset_of(tracked_process_ids@),
                forall|p: u32| #[trigger]
                    tracked_process_ids@.contains(p) ==> self.descends_from(roots, p),
                self.expanded_off_stack(tracked_process_ids@, stack@),
                Self::lists_added(discovered@, start, tracked_process_ids@.difference(roots)),
            decreases Set::<u32>::full().difference(tracked_process_ids@).len(), stack@.len(),
        {
            let ghost stack_before = stack@;
            let ghost tracked_before = tracked_process_ids@;
            let parent_process_id = match stack.pop() {
                Some(p) => p,
                None => {
                    break ;
                },
            };
            let ghost popped = stack@;
            proof {
                assert(stack_before =~= popped.push(parent_process_id));
                assert(tracked_before.contains(stack_before[stack_before.len() - 1]));
            }
            let ghost children_seq = if self.children_by_parent@.contains_key(parent_process_id) {
                self.children_by_parent@[parent_process_id]@
            } else {
                Seq::<u32>::empty()
            };
            let empty: Vec<u32> = Vec::new();
            let children = match self.children_by_parent.get(&parent_process_id) {
                Some(children) => children,
                None => &empty,
            };
            assert(children@ == children_seq);
            let mut j: usize = 0;
            while j < children.len()
                invariant
                    j <= children@.len(),
                    children@ == children_seq,
                    children_seq == (if self.children_by_parent@.contains_key(parent_process_id) {
                        self.children_by_parent@[parent_process_id]@
                    } else {
                        Seq::<u32>::empty()
                    }),
                    tracked_before.subset_of(tracked_process_ids@),
                    roots.subset_of(tracked_before),
                    tracked_before.contains(parent_process_id),
                    forall|p: u32| #[trigger]
                        tracked_before.contains(p) ==> self.descends_from(roots, p),
                    forall|p: u32| #[trigger]
                        tracked_process_ids@.contains(p) ==> self.descends_from(roots, p),
                    forall|i: int| 0 <= i < stack@.len() ==> tracked_process_ids@.contains(
                        #[trigger] stack@[i],
                    ),
                    forall|i: int| 0 <= i < j ==> tracked_process_ids@.contains(
                        #[trigger] children@[i],
                    ),
                    forall|p: u32| #[trigger] popped.contains(p) ==> stack@.contains(p),
                    forall|p: u32|
                        tracked_process_ids@.contains(p) && !tracked_before.contains(p)
                            ==> #[trigger] stack@.contains(p),
                    self.expanded_off_stack(tracked_before, stack_before),
                    stack_before == popped.push(parent_process_id),
                    Self::lists_added(discovered@, start, tracked_process_ids@.difference(roots)),
                    Set::<u32>::full().difference(tracked_process_ids@).len() < Set::<
                        u32,
                    >::full().difference(tracked_before).len() || (tracked_process_ids@
                        == tracked_before && stack@ == popped),
                decreases children@.len() - j,
            {
                let process_id = children[j];
                proof {
                    assert(self.is_child(process_id, parent_process_id));
                    self.lemma_descends_to_child(roots, parent_process_id, process_id);
                }
                let ghost tracked_mid = tracked_process_ids@;
                let ghost stack_mid = stack@;
                let ghost discovered_mid = discovered@;
                if tracked_process_ids.insert(process_id) {
                    discovered.push(process_id);
                    stack.push(process_id);
                    proof {
                        let full = Set::<u32>::full();
                        assert(full.difference(tracked_process_ids@) =~= full.difference(
                            tracked_mid,
                        ).remove(process_id));
                        vstd::set_lib::lemma_set_subset_finite(full, full.difference(tracked_mid));
                        assert(tracked_process_ids@.difference(roots) =~= tracked_mid.difference(
                            roots,
                        ).insert(process_id));
                        Self::lemma_lists_added_push(
                            discovered_mid,
                            start,
                            tracked_mid.difference(roots),
                            process_id,
                        );
                        assert(stack@ == stack_mid.push(process_id));
                        assert forall|p: u32| #[trigger] popped.contains(p) implies stack@.contains(
                            p,
                        ) by {
                            Self::lemma_push_keeps_members(stack_mid, process_id, p);
                        }
                        assert forall|p: u32|
                            tracked_process_ids@.contains(p) && !tracked_before.contains(
                                p,
                            ) implies #[trigger] stack@.contains(p) by {
                            if p == process_id {
                                assert(stack@[stack@.len() - 1] == p);
                            } else {
                                Self::lemma_push_keeps_members(stack_mid, process_id, p);
                            }
                        }
                        assert forall|i: int| 0 <= i < stack@.len() implies tracked_process_ids@.contains(
                            #[trigger] stack@[i],
                        ) by {
                            if i < stack_mid.len() {
                                assert(stack@[i] == stack_mid[i]);
                            }
                        }
                        assert(full.difference(tracked_mid).len() <= full.difference(
                            tracked_before,
                        ).len());
                    }
                } else {
                    proof {
                        assert(tracked_process_ids@ =~= tracked_mid);
                    }
                }
                j += 1;
            }
            proof {
                let members = tracked_process_ids@;
                assert forall|p: u32, c: u32|
                    members.contains(p) && !stack@.contains(p) && #[trigger] self.is_child(
                        c,
                        p,
                    ) implies members.contains(c) by {
                    if p == parent_process_id {
                        let k = choose|k: int| 0 <= k < children@.len() && children@[k] == c;
                        assert(members.contains(children@[k]));
                    } else {
                        assert(tracked_before.contains(p));
                        assert(!popped.contains(p));
                        assert(!stack_before.contains(p)) by {
                            if stack_before.contains(p) {
                                let k = choose|k: int|
                                    0 <= k < stack_before.len() && stack_before[k] == p;
                                if k < popped.len() {
                                    assert(popped[k] == p);
                                }
                            }
                        }
                    }
                }
            }
        }
        proof {
            let closed = tracked_process_ids@;
            assert(stack@.len() == 0);
            assert forall|p: u32| self.descends_from(roots, p) implies closed.contains(p) by {
                let path = choose|path: Seq<u32>|
                    path.len() > 0 && roots.contains(path[0]) && path.last() == p
                        && #[trigger] self.is_descent(path);
                assert forall|q: u32, c: u32|
                    closed.contains(q) && self.is_child(c, q) implies closed.contains(c) by {
                    assert(!stack@.contains(q));
                }
                self.lemma_closed_set_holds_descent(roots, closed, path);
            }
            assert(closed =~= self.descendant_closure(roots));
        }
    }

    /// A tracked process stays tracked while it runs or is to be kept.
    pub open spec fn keeps_process(&self, keep_process_ids: Set<u32>, process_id: u32) -> bool {
        self.spec_process_ids().contains(process_id) || keep_process_ids.contains(process_id)
    }

    /// Stops tracking the processes that are no longer running, unless
    /// `keep_process_ids` holds them (they still have a matched window);
    /// appends each process dropped to `removed`.
    pub fn remove_missing_processes(
        &self,
        tracked_process_ids: &mut HashSet<u32>,
        keep_process_ids: &HashSet<u32>,
        removed: &mut Vec<u32>,
    )
        ensures
            final(tracked_process_ids)@ == old(tracked_process_ids)@.filter(
                |p: u32| self.keeps_process(keep_process_ids@, p),
            ),
            final(removed)@.len() >= old(removed)@.len(),
            final(removed)@.subrange(0, old(removed)@.len() as int) == old(removed)@,
            final(removed)@.subrange(old(removed)@.len() as int, final(removed)@.len() as int).no_duplicates(),
            final(removed)@.subrange(
                old(removed)@.len() as int,
                final(removed)@.len() as int,
            ).to_set() == old(tracked_process_ids)@.difference(final(tracked_process_ids)@),
    {
        let ghost original = tracked_process_ids@;
        let ghost start = removed@;
        let ghost keep = keep_process_ids@;
        let candidates = hash_set_elements(tracked_process_ids);
        let mut k: usize = 0;
        while k < candidates.len()
            invariant
                k <= candidates@.len(),
                candidates@.to_set() == original,
                candidates@.no_duplicates(),
                keep == keep_process_ids@,
                forall|p: u32| #[trigger]
                    tracked_process_ids@.contains(p) <==> original.contains(p) && (
                    self.keeps_process(keep, p) || !candidates@.subrange(0, k as int).contains(p)),
                removed@.len() >= start.len(),
                removed@.subrange(0, start.len() as int) == start,
                removed@.subrange(start.len() as int, removed@.len() as int).no_duplicates(),
                forall|p: u32| #[trigger]
                    removed@.subrange(start.len() as int, removed@.len() as int).contains(p) <==> (
                    candidates@.subrange(0, k as int).contains(p) && !self.keeps_process(keep, p)),
            decreases candidates@.len() - k,
        {
            let process_id = candidates[k];
            let ghost prefix = candidates@.subrange(0, k as int);
            let ghost next = candidates@.subrange(0, k + 1 as int);
            let ghost before_part = removed@.subrange(start.len() as int, removed@.len() as int);
            proof {
                assert(next =~= prefix.push(process_id));
                assert(!prefix.contains(process_id)) by {
                    if prefix.contains(process_id) {
                        let i = choose|i: int| 0 <= i < prefix.len() && prefix[i] == process_id;
                        assert(candidates@[i] == candidates@[k as int]);
                    }
                }
                assert forall|p: u32| #[trigger] next.contains(p) <==> (prefix.contains(p) || p
                    == process_id) by {
                    if next.contains(p) && p != process_id {
                        let i = choose|i: int| 0 <= i < next.len() && next[i] == p;
                        assert(prefix[i] == p);
                    }
                    if prefix.contains(p) {
                        let i = choose|i: int| 0 <= i < prefix.len() && prefix[i] == p;
                        assert(next[i] == p);
                    }
                    if p == process_id {
                        assert(next[k as int] == p);
                    }
                }
            }
            let is_running = self.process_ids.contains(&process_id) || keep_process_ids.contains(
                &process_id,
            );
            if !is_running {
                tracked_process_ids.remove(&process_id);
                removed.push(process_id);
                proof {
                    let part = removed@.subrange(start.len() as int, removed@.len() as int);
                    assert(part =~= before_part.push(process_id));
                    assert(removed@.subrange(0, start.len() as int) =~= start);
                    assert(!before_part.contains(process_id));
                    assert forall|i: int, j: int| 0 <= i < j < part.len() implies part[i]
                        != part[j] by {
                        if j == before_part.len() {
                            assert(part[i] == before_part[i]);
                            assert(before_part.contains(part[i]));
                        } else {
                            assert(part[i] == before_part[i] && part[j] == before_part[j]);
                        }
                    }
                    assert forall|p: u32| #[trigger] part.contains(p) <==> (before_part.contains(p)
                        || p == process_id) by {
                        if part.contains(p) && p != process_id {
                            let i = choose|i: int| 0 <= i < part.len() && part[i] == p;
                            assert(before_part[i] == p);
                        }
                        if before_part.contains(p) {
                            let i = choose|i: int| 0 <= i < before_part.len() && before_part[i] == p;
                            assert(part[i] == p);
                        }
                        if p == process_id {
                            assert(part[before_part.len() as int] == p);
                        }
                    }
                }
            }
            k += 1;
        }
        proof {
            assert(candidates@.subrange(0, candidates@.len() as int) =~= candidates@);
            assert forall|p: u32| candidates@.contains(p) <==> original.contains(p) by {
                assert(candidates@.to_set().contains(p) == candidates@.contains(p));
            }
            assert(tracked_process_ids@ =~= original.filter(
                |p: u32| self.keeps_process(keep_process_ids@, p),
            ));
            let part = removed@.subrange(start.len() as int, removed@.len() as int);
            assert(part.to_set() =~= original.difference(tracked_process_ids@));
        }
    }
}

/// The processes that descend from `known_process_ids` in a snapshot's
/// entries, not counting the known ones.
pub fn descendant_process_ids_from_entries(
    known_process_ids: &HashSet<u32>,
    entries: &[ProcessTreeEntry],
) -> (r: Vec<u32>)
    ensures
        r@.no_duplicates(),
        r@.to_set() == entries_descendant_closure(entries@, known_process_ids@).difference(
            known_process_ids@,
        ),
{
    let index = ProcessTreeChildIndex::from_entries(entries);
    let known = hash_set_elements(known_process_ids);
    let mut expanded: HashSet<u32> = HashSet::new();
    let mut q: usize = 0;
    while q < known.len()
        invariant
            q <= known@.len(),
            expanded@ == known@.subrange(0, q as int).to_set(),
        decreases known@.len() - q,
    {
        expanded.insert(known[q]);
        proof {
            let prefix = known@.subrange(0, q as int);
            assert(known@.subrange(0, q + 1 as int) =~= prefix.push(known@[q as int]));
            prefix.lemma_push_to_set_commute(known@[q as int]);
        }
        q += 1;
    }
    assert(known@.subrange(0, known@.len() as int) =~= known@);
    let mut descendants: Vec<u32> = Vec::new();
    let mut stack: Vec<u32> = Vec::new();
    index.append_new_descendants(&mut expanded, &mut descendants, &mut stack);
    proof {
        assert(descendants@.subrange(0, 0) =~= Seq::<u32>::empty());
        assert(descendants@.subrange(0, descendants@.len() as int) =~= descendants@);
        ProcessTreeChildIndex::lemma_closure_depends_on_children(index, entries@, known_process_ids@);
    }
    descendants
}

/// A chain of processes, each listed in `entries` as the child of the one
/// before.
pub open spec fn entries_descent(entries: Seq<ProcessTreeEntry>, path: Seq<u32>) -> bool {
    forall|i: int| 0 <= i < path.len() - 1 ==> #[trigger] entries_have_child(entries, path[i + 1], path[i])
}

/// `roots` and every process that descends from one of them in `entries`.
pub open spec fn entries_descendant_closure(entries: Seq<ProcessTreeEntry>, roots: Set<u32>) -> Set<
    u32,
> {
    Set::new(
        |p: u32|
            exists|path: Seq<u32>|
                path.len() > 0 && roots.contains(path[0]) && path.last() == p
                    && #[trigger] entries_descent(entries, path),
    )
}

impl ProcessTreeChildIndex {
    proof fn lemma_closure_depends_on_children(
        index: ProcessTreeChildIndex,
        entries: Seq<ProcessTreeEntry>,
        roots: Set<u32>,
    )
        requires
            forall|c: u32, p: u32| #[trigger] index.is_child(c, p) <==> entries_have_child(entries, c, p),
        ensures
            index.descendant_closure(roots) == entries_descendant_closure(entries, roots),
    {
        assert forall|path: Seq<u32>| #[trigger] index.is_descent(path) <==> entries_descent(entries, path) by {
            if index.is_descent(path) {
                assert forall|i: int| 0 <= i < path.len() - 1 implies #[trigger] entries_have_child(
                    entries,
                    path[i + 1],
                    path[i],
                ) by {
                    assert(index.is_child(path[i + 1], path[i]));
                }
            }
            if entries_descent(entries, path) {
                assert forall|i: int| 0 <= i < path.len() - 1 implies #[trigger] index.is_child(
                    path[i + 1],
                    path[i],
                ) by {
                    assert(entries_have_child(entries, path[i + 1], path[i]));
                }
            }
        }
        assert forall|p: u32| index.descends_from(roots, p) <==> entries_descendant_closure(entries, roots).contains(p) by {
            if index.descends_from(roots, p) {
                let path = choose|path: Seq<u32>|
                    path.len() > 0 && roots.contains(path[0]) && path.last() == p
                        && #[trigger] index.is_descent(path);
                assert(entries_descent(entries, path));
            }
            if entries_descendant_closure(entries, roots).contains(p) {
                let path = choose|path: Seq<u32>|
                    path.len() > 0 && roots.contains(path[0]) && path.last() == p
                        && #[trigger] entries_descent(entries, path);
                assert(index.is_descent(path));
            }
        }
        assert(index.descendant_closure(roots) =~= entries_descendant_closure(entries, roots));
    }
}

} // verus!
