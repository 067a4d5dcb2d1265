use vstd::prelude::*;

use std::collections::HashSet;

use crate::geometry::RegionId;
use crate::settings::UiLanguage;
use crate::status_text::{launch_error_text, TabPresetProgramFailure, TabPresetProgramLaunchError};
use crate::process_tree::{hash_set_elements, ProcessTreeChildIndex};
use crate::scan_schedule::{
    scan_completed, PendingProcessWindowSearch, ProcessTreeScanSchedule,
    TAB_PRESET_HOOKED_THREAD_SNAPSHOT_DELAY_MS, TAB_PRESET_THREAD_SNAPSHOT_INTERVAL_MS,
};

verus! {

broadcast use vstd::std_specs::hash::group_hash_axioms;

/// A program of a tab preset that was started and whose window is still
/// looked for: its label, the region its window goes to, its executable,
/// the process started, and the processes tracked for it (that process
/// and the descendants found so far).
#[derive(Debug)]
pub struct PendingTabPresetProgramRestore {
    pub label: String,
    pub region_id: RegionId,
    pub path: String,
    pub process_id: u32,
    pub tracked_process_ids: HashSet<u32>,
}

impl PendingTabPresetProgramRestore {
    pub fn new(label: String, region_id: RegionId, path: String, process_id: u32) -> (p: Self)
        ensures
            p.label == label,
            p.region_id == region_id,
            p.path == path,
            p.process_id == process_id,
            p.tracked_process_ids@ == set![process_id],
    {
        let mut tracked_process_ids: HashSet<u32> = HashSet::new();
        tracked_process_ids.insert(process_id);
        PendingTabPresetProgramRestore { label, region_id, path, process_id, tracked_process_ids }
    }

    /// The tracked processes, each once.
    pub fn process_ids(&self) -> (v: Vec<u32>)
        ensures
            v@.to_set() == self.tracked_process_ids@,
            v@.no_duplicates(),
    {
        hash_set_elements(&self.tracked_process_ids)
    }
}

/// Some tracked process of some pending program still needs a window.
pub open spec fn needs_any_window(
    pending: Seq<PendingTabPresetProgramRestore>,
    remaining: Set<u32>,
) -> bool {
    exists|i: int, p: u32|
        0 <= i < pending.len() && #[trigger] pending[i].tracked_process_ids@.contains(p)
            && remaining.contains(p)
}

/// The processes of `p` and all their descendants in the snapshot.
pub open spec fn closure_of(tree: ProcessTreeChildIndex, p: PendingTabPresetProgramRestore) -> Set<
    u32,
> {
    tree.descendant_closure(p.tracked_process_ids@)
}

/// What stays tracked for `p` after a snapshot: its closure, without the
/// processes that ended, unless they still have a window.
pub open spec fn refreshed(
    tree: ProcessTreeChildIndex,
    keep: Set<u32>,
    p: PendingTabPresetProgramRestore,
) -> Set<u32> {
    closure_of(tree, p).filter(|x: u32| tree.keeps_process(keep, x))
}

/// The processes a snapshot found for the first `n` pending programs.
pub open spec fn discovered_upto(
    tree: ProcessTreeChildIndex,
    pending: Seq<PendingTabPresetProgramRestore>,
    n: int,
) -> Set<u32>
    decreases n,
{
    if n <= 0 {
        Set::empty()
    } else {
        discovered_upto(tree, pending, n - 1) + closure_of(tree, pending[n - 1]).difference(
            pending[n - 1].tracked_process_ids@,
        )
    }
}

/// The processes a snapshot dropped for the first `n` pending programs.
pub open spec fn stale_upto(
    tree: ProcessTreeChildIndex,
    keep: Set<u32>,
    pending: Seq<PendingTabPresetProgramRestore>,
    n: int,
) -> Set<u32>
    decreases n,
{
    if n <= 0 {
        Set::empty()
    } else {
        stale_upto(tree, keep, pending, n - 1) + closure_of(tree, pending[n - 1]).difference(
            refreshed(tree, keep, pending[n - 1]),
        )
    }
}

/// The processes tracked for the first `n` pending programs.
pub open spec fn tracked_upto(pending: Seq<PendingTabPresetProgramRestore>, n: int) -> Set<u32>
    decreases n,
{
    if n <= 0 {
        Set::empty()
    } else {
        tracked_upto(pending, n - 1) + pending[n - 1].tracked_process_ids@
    }
}

/// The restore of a tab preset's programs: the programs whose windows are
/// still looked for, the window search, the process-tree scan schedule and
/// the deadline.
#[derive(Debug)]
pub struct TabPresetProgramRestoreTracking {
    pub pending: Vec<PendingTabPresetProgramRestore>,
    pub window_search: PendingProcessWindowSearch,
    pub process_tree_scan: ProcessTreeScanSchedule,
    pub deadline: u64,
}

impl TabPresetProgramRestoreTracking {
    /// Starts looking for the windows of the started programs.  With
    /// window events hooked, the scans are the slower fallback ones.
    pub fn start(
        pending: Vec<PendingTabPresetProgramRestore>,
        now: u64,
        window_events_hooked: bool,
        deadline: u64,
    ) -> (s: Self)
        requires
            window_events_hooked ==> now + TAB_PRESET_HOOKED_THREAD_SNAPSHOT_DELAY_MS <= u64::MAX,
            !window_events_hooked ==> now + TAB_PRESET_THREAD_SNAPSHOT_INTERVAL_MS <= u64::MAX,
        ensures
            s.pending@ == pending@,
            s.deadline == deadline,
            s.window_search.wf(),
            s.process_tree_scan.wf(),
            s.window_search.process_ids@ == tracked_upto(pending@, pending@.len() as int).remove(0),
            s.window_search.remaining_process_ids@ == s.window_search.process_ids@,
            s.window_search.hwnds@.is_empty(),
            s.window_search.last_scan_at is None,
            s.process_tree_scan.last_scan_at is None,
            window_events_hooked ==> s.process_tree_scan.next_scan_at == now
                + crate::scan_schedule::TAB_PRESET_HOOKED_PROCESS_TREE_SCAN_INTERVAL_MS
                && s.window_search.next_scan_at == now
                + crate::scan_schedule::TAB_PRESET_HOOKED_WINDOW_SCAN_INTERVAL_MS,
            !window_events_hooked ==> s.process_tree_scan.next_scan_at == now
                + crate::scan_schedule::TAB_PRESET_PROCESS_TREE_SCAN_INTERVAL_MS
                && s.window_search.next_scan_at == now,
    {
        let mut ids: Vec<u32> = Vec::new();
        let mut i: usize = 0;
        while i < pending.len()
            invariant
                i <= pending@.len(),
                ids@.to_set() == tracked_upto(pending@, i as int),
            decreases pending@.len() - i,
        {
            let more = pending[i].process_ids();
            let ghost before = ids@;
            let mut k: usize = 0;
            while k < more.len()
                invariant
                    k <= more@.len(),
                    ids@ == before + more@.take(k as int),
                decreases more@.len() - k,
            {
                ids.push(more[k]);
                assert(more@.take(k + 1) =~= more@.take(k as int).push(more@[k as int]));
                k += 1;
            }
            proof {
                assert(more@.take(more@.len() as int) =~= more@);
                vstd::seq_lib::seq_to_set_distributes_over_add(before, more@);
            }
            i += 1;
        }
        let (window_search, process_tree_scan) = if window_events_hooked {
            (
                PendingProcessWindowSearch::from_process_ids_with_scan_policy(
                    ids,
                    now,
                    crate::scan_schedule::PendingProcessWindowScanPolicy::hooked_fallback(),
                ),
                ProcessTreeScanSchedule::hooked_fallback(now),
            )
        } else {
            (
                PendingProcessWindowSearch::from_process_ids(ids, now),
                ProcessTreeScanSchedule::new(now),
            )
        };
        TabPresetProgramRestoreTracking { pending, window_search, process_tree_scan, deadline }
    }

    /// Whether a tracked process of a pending program still needs a window.
    pub fn has_unmatched_tracked_processes(&self) -> (b: bool)
        ensures
            b == needs_any_window(self.pending@, self.window_search.remaining_process_ids@),
    {
        let mut i: usize = 0;
        while i < self.pending.len()
            invariant
                i <= self.pending@.len(),
                forall|j: int, p: u32|
                    0 <= j < i && #[trigger] self.pending@[j].tracked_process_ids@.contains(p)
                        ==> !self.window_search.remaining_process_ids@.contains(p),
            decreases self.pending@.len() - i,
        {
            let ids = self.pending[i].process_ids();
            let mut k: usize = 0;
            while k < ids.len()
                invariant
                    k <= ids@.len(),
                    i < self.pending@.len(),
                    ids@.to_set() == self.pending@[i as int].tracked_process_ids@,
                    forall|m: int|
                        0 <= m < k ==> !self.window_search.remaining_process_ids@.contains(
                            #[trigger] ids@[m],
                        ),
                decreases ids@.len() - k,
            {
                if self.window_search.needs_window_for_process(ids[k]) {
                    assert(ids@.to_set().contains(ids@[k as int]));
                    return true;
                }
                k += 1;
            }
            assert forall|p: u32|
                #[trigger] self.pending@[i as int].tracked_process_ids@.contains(
                    p,
                ) implies !self.window_search.remaining_process_ids@.contains(p) by {
                assert(ids@.to_set().contains(p));
                let m = choose|m: int| 0 <= m < ids@.len() && ids@[m] == p;
                assert(!self.window_search.remaining_process_ids@.contains(ids@[m]));
            }
            i += 1;
        }
        false
    }

    /// Whether some window was found for a pending program.
    pub fn has_window_matches(&self) -> (b: bool)
        ensures
            b == !self.window_search.hwnds@.is_empty(),
    {
        self.window_search.has_matches()
    }

    /// Whether a process-tree snapshot is due: programs are pending, the
    /// schedule says so, and some tracked process still needs a window.
    pub fn process_tree_scan_due(&self, now: u64) -> (b: bool)
        ensures
            b == (self.pending@.len() > 0 && (now >= self.process_tree_scan.next_scan_at || (now
                >= self.deadline && crate::scan_schedule::deadline_scan_allowed(
                self.process_tree_scan.last_scan_at,
                now,
            ))) && needs_any_window(self.pending@, self.window_search.remaining_process_ids@)),
    {
        self.pending.len() > 0 && self.process_tree_scan.should_scan(now, self.deadline)
            && self.has_unmatched_tracked_processes()
    }

    /// Whether a fallback scan of windows or of the process tree is due.
    pub fn has_due_fallback_scan(&self, now: u64) -> (b: bool)
        ensures
            b == ((!self.window_search.remaining_process_ids@.is_empty() && (now
                >= self.window_search.next_scan_at || (now >= self.deadline
                && crate::scan_schedule::deadline_scan_allowed(
                self.window_search.last_scan_at,
                now,
            )))) || ((now >= self.process_tree_scan.next_scan_at || (now >= self.deadline
                && crate::scan_schedule::deadline_scan_allowed(
                self.process_tree_scan.last_scan_at,
                now,
            ))) && needs_any_window(self.pending@, self.window_search.remaining_process_ids@))),
    {
        self.window_search.should_scan(now, self.deadline) || (self.process_tree_scan.should_scan(
            now,
            self.deadline,
        ) && self.has_unmatched_tracked_processes())
    }

    /// Stops looking for the window of the pending program at `index`: it
    /// leaves the list, and its tracked processes leave the window search.
    pub fn remove_pending(&mut self, index: usize) -> (removed: PendingTabPresetProgramRestore)
        requires
            index < old(self).pending@.len(),
        ensures
            removed == old(self).pending@[index as int],
            final(self).pending@ == old(self).pending@.remove(index as int),
            final(self).window_search.process_ids@ == old(self).window_search.process_ids@.difference(
                removed.tracked_process_ids@,
            ),
            final(self).window_search.hwnds@ == old(self).window_search.hwnds@.remove_keys(
                removed.tracked_process_ids@,
            ),
            final(self).window_search.remaining_process_ids@ == old(
                self,
            ).window_search.remaining_process_ids@.difference(removed.tracked_process_ids@),
            final(self).window_search.next_scan_at == old(self).window_search.next_scan_at,
            final(self).window_search.scan_interval == old(self).window_search.scan_interval,
            final(self).process_tree_scan == old(self).process_tree_scan,
            final(self).deadline == old(self).deadline,
    {
        let removed = self.pending.remove(index);
        let ids = removed.process_ids();
        let ghost ws0 = self.window_search;
        let mut k: usize = 0;
        while k < ids.len()
            invariant
                k <= ids@.len(),
                self.window_search.process_ids@ == ws0.process_ids@.difference(
                    ids@.take(k as int).to_set(),
                ),
                self.window_search.hwnds@ == ws0.hwnds@.remove_keys(ids@.take(k as int).to_set()),
                self.window_search.remaining_process_ids@ == ws0.remaining_process_ids@.difference(
                    ids@.take(k as int).to_set(),
                ),
                self.window_search.next_scan_at == ws0.next_scan_at,
                self.window_search.scan_interval == ws0.scan_interval,
                self.pending@ == old(self).pending@.remove(index as int),
                self.process_tree_scan == old(self).process_tree_scan,
                self.deadline == old(self).deadline,
            decreases ids@.len() - k,
        {
            let ghost prev = ids@.take(k as int);
            assert(ids@.take(k + 1) =~= prev + seq![ids@[k as int]]);
            proof {
                Seq::lemma_to_set_insert_commutes(prev, ids@[k as int]);
            }
            self.window_search.remove_process(ids[k]);
            assert(self.window_search.process_ids@ =~= ws0.process_ids@.difference(
                ids@.take(k + 1).to_set(),
            ));
            assert(self.window_search.hwnds@ =~= ws0.hwnds@.remove_keys(
                ids@.take(k + 1).to_set(),
            ));
            assert(self.window_search.remaining_process_ids@ =~= ws0.remaining_process_ids@.difference(
                ids@.take(k + 1).to_set(),
            ));
            k += 1;
        }
        assert(ids@.take(ids@.len() as int) =~= ids@);
        removed
    }

    /// Applies a process-tree snapshot (`None` when none could be taken):
    /// each pending program tracks the descendants of its processes, less
    /// those that ended without a window; the processes dropped leave the
    /// window search, those found join it; the scan schedule records the
    /// scan.  Returns the processes found.
    pub fn apply_process_tree(&mut self, now: u64, tree: Option<&ProcessTreeChildIndex>) -> (r:
        Vec<u32>)
        requires
            now + old(self).process_tree_scan.min_scan_interval <= u64::MAX,
            now + old(self).process_tree_scan.scan_interval <= u64::MAX,
        ensures
            final(self).deadline == old(self).deadline,
            tree is None ==> {
                &&& r@.len() == 0
                &&& final(self).pending@ == old(self).pending@
                &&& final(self).window_search == old(self).window_search
                &&& final(self).process_tree_scan == scan_completed(
                    old(self).process_tree_scan,
                    now,
                    false,
                )
            },
            tree matches Some(t) ==> {
                let old_pending = old(self).pending@;
                let ws = old(self).window_search;
                let keep = ws.hwnds@.dom();
                let found = discovered_upto(*t, old_pending, old_pending.len() as int);
                let stale = stale_upto(*t, keep, old_pending, old_pending.len() as int);
                let kept_ids = ws.process_ids@.difference(stale);
                let hwnds = ws.hwnds@.remove_keys(stale);
                &&& r@.to_set() == found
                &&& final(self).pending@.len() == old_pending.len()
                &&& forall|i: int|
                    0 <= i < old_pending.len() ==> {
                        &&& (#[trigger] final(self).pending@[i]).tracked_process_ids@ == refreshed(
                            *t,
                            keep,
                            old_pending[i],
                        )
                        &&& final(self).pending@[i].label == old_pending[i].label
                        &&& final(self).pending@[i].region_id == old_pending[i].region_id
                        &&& final(self).pending@[i].path == old_pending[i].path
                        &&& final(self).pending@[i].process_id == old_pending[i].process_id
                    }
                &&& final(self).window_search.hwnds@ == hwnds
                &&& final(self).window_search.process_ids@ == kept_ids + found.filter(
                    |id: u32| id != 0 && !hwnds.contains_key(id),
                )
                &&& final(self).window_search.remaining_process_ids@
                    == ws.remaining_process_ids@.difference(stale) + found.filter(
                    |id: u32| id != 0 && !hwnds.contains_key(id) && !kept_ids.contains(id),
                )
                &&& final(self).window_search.next_scan_at == ws.next_scan_at
                &&& final(self).window_search.scan_interval == ws.scan_interval
                &&& final(self).process_tree_scan == scan_completed(
                    old(self).process_tree_scan,
                    now,
                    r@.len() > 0,
                )
            },
    {
        let tree = match tree {
            None => {
                self.process_tree_scan.mark_completed(now, false);
                return Vec::new();
            },
            Some(tree) => tree,
        };
        let ghost old_pending = self.pending@;
        let ghost ws = self.window_search;
        let keep = self.window_search.matched_process_ids();
        let mut rest: Vec<PendingTabPresetProgramRestore> = Vec::new();
        std::mem::swap(&mut rest, &mut self.pending);
        assert(rest@ == old_pending);
        assert(old_pending.len() == rest.len());
        let mut discovered: Vec<u32> = Vec::new();
        let mut stale: Vec<u32> = Vec::new();
        let mut stack: Vec<u32> = Vec::new();
        let mut n: usize = 0;
        while rest.len() > 0
            invariant
                n <= old_pending.len() <= usize::MAX,
                rest@ == old_pending.skip(n as int),
                self.pending@.len() == n,
                self.window_search == ws,
                keep@ == ws.hwnds@.dom(),
                self.deadline == old(self).deadline,
                self.process_tree_scan == old(self).process_tree_scan,
                discovered@.to_set() == discovered_upto(*tree, old_pending, n as int),
                stale@.to_set() == stale_upto(*tree, keep@, old_pending, n as int),
                forall|i: int|
                    0 <= i < n ==> {
                        &&& (#[trigger] self.pending@[i]).tracked_process_ids@ == refreshed(
                            *tree,
                            keep@,
                            old_pending[i],
                        )
                        &&& self.pending@[i].label == old_pending[i].label
                        &&& self.pending@[i].region_id == old_pending[i].region_id
                        &&& self.pending@[i].path == old_pending[i].path
                        &&& self.pending@[i].process_id == old_pending[i].process_id
                    },
            decreases rest@.len(),
        {
            let mut p = rest.remove(0);
            assert(p == old_pending[n as int]);
            let ghost before = p.tracked_process_ids@;
            let ghost disc0 = discovered@;
            let ghost stale0 = stale@;
            tree.append_new_descendants(&mut p.tracked_process_ids, &mut discovered, &mut stack);
            let ghost closed = p.tracked_process_ids@;
            tree.remove_missing_processes(&mut p.tracked_process_ids, &keep, &mut stale);
            proof {
                let added = discovered@.subrange(disc0.len() as int, discovered@.len() as int);
                assert(discovered@ =~= disc0 + added);
                vstd::seq_lib::seq_to_set_distributes_over_add(disc0, added);
                let dropped = stale@.subrange(stale0.len() as int, stale@.len() as int);
                assert(stale@ =~= stale0 + dropped);
                vstd::seq_lib::seq_to_set_distributes_over_add(stale0, dropped);
                assert(p.tracked_process_ids@ =~= refreshed(*tree, keep@, old_pending[n as int]));
                assert(old_pending.skip(n as int).remove(0) =~= old_pending.skip(n + 1));
            }
            self.pending.push(p);
            n += 1;
        }
        let mut k: usize = 0;
        while k < stale.len()
            invariant
                k <= stale@.len(),
                stale@.to_set() == stale_upto(*tree, keep@, old_pending, old_pending.len() as int),
                self.window_search.process_ids@ == ws.process_ids@.difference(
                    stale@.take(k as int).to_set(),
                ),
                self.window_search.hwnds@ == ws.hwnds@.remove_keys(stale@.take(k as int).to_set()),
                self.window_search.remaining_process_ids@ == ws.remaining_process_ids@.difference(
                    stale@.take(k as int).to_set(),
                ),
                self.window_search.next_scan_at == ws.next_scan_at,
                self.window_search.scan_interval == ws.scan_interval,
                self.deadline == old(self).deadline,
                self.process_tree_scan == old(self).process_tree_scan,
                self.pending@.len() == old_pending.len(),
                forall|i: int|
                    0 <= i < old_pending.len() ==> {
                        &&& (#[trigger] self.pending@[i]).tracked_process_ids@ == refreshed(
                            *tree,
                            keep@,
                            old_pending[i],
                        )
                        &&& self.pending@[i].label == old_pending[i].label
                        &&& self.pending@[i].region_id == old_pending[i].region_id
                        &&& self.pending@[i].path == old_pending[i].path
                        &&& self.pending@[i].process_id == old_pending[i].process_id
                    },
            decreases stale@.len() - k,
        {
            let ghost prev = stale@.take(k as int);
            assert(stale@.take(k + 1) =~= prev + seq![stale@[k as int]]);
            proof {
                Seq::lemma_to_set_insert_commutes(prev, stale@[k as int]);
            }
            self.window_search.remove_process(stale[k]);
            assert(self.window_search.process_ids@ =~= ws.process_ids@.difference(
                stale@.take(k + 1).to_set(),
            ));
            assert(self.window_search.hwnds@ =~= ws.hwnds@.remove_keys(stale@.take(k + 1).to_set()));
            assert(self.window_search.remaining_process_ids@ =~= ws.remaining_process_ids@.difference(
                stale@.take(k + 1).to_set(),
            ));
            k += 1;
        }
        assert(stale@.take(stale@.len() as int) =~= stale@);
        let found_process = discovered.len() > 0;
        if found_process {
            let copy = discovered.clone();
            assert(copy@ =~= discovered@);
            self.window_search.add_process_ids(copy);
        } else {
            proof {
                let found = discovered_upto(*tree, old_pending, old_pending.len() as int);
                assert(found =~= Set::<u32>::empty());
                assert(self.window_search.process_ids@ =~= self.window_search.process_ids@ + found.filter(
                    |id: u32| id != 0 && !self.window_search.hwnds@.contains_key(id),
                ));
            }
        }
        self.process_tree_scan.mark_completed(now, found_process);
        discovered
    }
    /// At the deadline, gives up on every pending program: the window
    /// search is emptied and each program becomes a "window not found"
    /// failure, in order.  Before the deadline nothing changes.
    pub fn expire_at_deadline(&mut self, now: u64, language: UiLanguage) -> (failures: Vec<
        TabPresetProgramFailure,
    >)
        ensures
            final(self).deadline == old(self).deadline,
            final(self).process_tree_scan == old(self).process_tree_scan,
            now < old(self).deadline ==> failures@.len() == 0 && final(self).pending@ == old(
                self,
            ).pending@ && final(self).window_search == old(self).window_search,
            now >= old(self).deadline ==> {
                &&& final(self).pending@.len() == 0
                &&& final(self).window_search.process_ids@.is_empty()
                &&& final(self).window_search.hwnds@.is_empty()
                &&& final(self).window_search.remaining_process_ids@.is_empty()
                &&& failures@.len() == old(self).pending@.len()
                &&& forall|i: int|
                    0 <= i < failures@.len() ==> (#[trigger] failures@[i]).label == old(
                        self,
                    ).pending@[i].label && failures@[i].message@ == launch_error_text(
                        TabPresetProgramLaunchError::WindowNotFound {
                            path: old(self).pending@[i].path,
                            process_id: old(self).pending@[i].process_id,
                        },
                        language,
                    )
            },
    {
        let mut failures: Vec<TabPresetProgramFailure> = Vec::new();
        if now < self.deadline {
            return failures;
        }
        self.window_search.clear();
        let ghost start = self.pending@;
        assert(start.len() == self.pending.len());
        let mut n: usize = 0;
        while self.pending.len() > 0
            invariant
                n <= start.len() <= usize::MAX,
                self.pending@ == start.skip(n as int),
                failures@.len() == n,
                self.deadline == old(self).deadline,
                self.process_tree_scan == old(self).process_tree_scan,
                self.window_search.process_ids@.is_empty(),
                self.window_search.hwnds@.is_empty(),
                self.window_search.remaining_process_ids@.is_empty(),
                forall|i: int|
                    0 <= i < n ==> (#[trigger] failures@[i]).label == start[i].label
                        && failures@[i].message@ == launch_error_text(
                        TabPresetProgramLaunchError::WindowNotFound {
                            path: start[i].path,
                            process_id: start[i].process_id,
                        },
                        language,
                    ),
            decreases self.pending@.len(),
        {
            let pending = self.pending.remove(0);
            assert(pending == start[n as int]);
            assert(start.skip(n as int).remove(0) =~= start.skip(n + 1));
            let error = TabPresetProgramLaunchError::WindowNotFound {
                path: pending.path,
                process_id: pending.process_id,
            };
            let message = error.user_message(language);
            failures.push(TabPresetProgramFailure { label: pending.label, message });
            n += 1;
        }
        failures
    }
}

/// A snapshot never drops a tracked process whose window was found, nor
/// one that is still running.
pub proof fn lemma_snapshot_keeps_live_and_matched(
    tree: ProcessTreeChildIndex,
    keep: Set<u32>,
    p: PendingTabPresetProgramRestore,
    process_id: u32,
)
    requires
        p.tracked_process_ids@.contains(process_id),
        keep.contains(process_id) || tree.spec_process_ids().contains(process_id),
    ensures
        refreshed(tree, keep, p).contains(process_id),
{
    let path = seq![process_id];
    assert(tree.is_descent(path));
    assert(tree.descends_from(p.tracked_process_ids@, process_id));
}

} // verus!
