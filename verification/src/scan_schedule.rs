use vstd::prelude::*;
use std::collections::{HashMap, HashSet};
use vstd::std_specs::iter::IteratorSpec;

verus! {

/// Times are milliseconds on a monotonic clock; durations are milliseconds.
/// How long a restored program may take to show its window.
pub const TAB_PRESET_WINDOW_WAIT_MS: u64 = 10_000;
/// How often a pending program restore is polled.
pub const TAB_PRESET_WINDOW_POLL_MS: u64 = 100;
/// A rescan at the deadline is skipped when the last scan is this recent.
pub const TAB_PRESET_DEADLINE_RESCAN_SUPPRESSION_MS: u64 = 500;
pub const TAB_PRESET_PROCESS_TREE_SCAN_INTERVAL_MS: u64 = 1_000;
pub const TAB_PRESET_PROCESS_TREE_MAX_SCAN_INTERVAL_MS: u64 = 4_000;
pub const TAB_PRESET_HOOKED_PROCESS_TREE_SCAN_INTERVAL_MS: u64 = 2_000;
pub const TAB_PRESET_HOOKED_PROCESS_TREE_MAX_SCAN_INTERVAL_MS: u64 = 4_000;
pub const TAB_PRESET_WINDOW_SCAN_INTERVAL_MS: u64 = 1_000;
pub const TAB_PRESET_WINDOW_MAX_SCAN_INTERVAL_MS: u64 = 4_000;
pub const TAB_PRESET_HOOKED_WINDOW_SCAN_INTERVAL_MS: u64 = 3_000;
pub const TAB_PRESET_HOOKED_WINDOW_MAX_SCAN_INTERVAL_MS: u64 = 4_000;
pub const TAB_PRESET_THREAD_SNAPSHOT_INTERVAL_MS: u64 = 2_000;
pub const TAB_PRESET_THREAD_SNAPSHOT_MAX_INTERVAL_MS: u64 = 4_000;
pub const TAB_PRESET_HOOKED_THREAD_SNAPSHOT_DELAY_MS: u64 = 6_000;

/// Whether a scan at `now` is far enough from the last one to run at the
/// deadline.
pub open spec fn deadline_scan_allowed(last_scan_at: Option<u64>, now: u64) -> bool {
    match last_scan_at {
        None => true,
        Some(last) => now >= last && now - last >= TAB_PRESET_DEADLINE_RESCAN_SUPPRESSION_MS,
    }
}

/// The interval after an empty scan: doubled, up to the maximum.
pub open spec fn doubled_interval(interval: u64, max: u64) -> u64 {
    if interval + interval <= max {
        (interval + interval) as u64
    } else {
        max
    }
}

/// Schedule of process-tree scans while a restored program's child
/// processes are looked for: scans back off while they find nothing.
#[derive(Debug, Clone, Copy, PartialEq, Eq, Structural)]
pub struct ProcessTreeScanSchedule {
    pub next_scan_at: u64,
    pub min_scan_interval: u64,
    pub scan_interval: u64,
    pub max_scan_interval: u64,
    pub last_scan_at: Option<u64>,
}

impl ProcessTreeScanSchedule {
    /// The interval stays between the minimum and the maximum.
    pub open spec fn wf(&self) -> bool {
        &&& self.min_scan_interval <= self.scan_interval <= self.max_scan_interval
    }

    pub fn new(now: u64) -> (s: Self)
        requires
            now + TAB_PRESET_PROCESS_TREE_SCAN_INTERVAL_MS <= u64::MAX,
        ensures
            s.wf(),
            s.next_scan_at == now + TAB_PRESET_PROCESS_TREE_SCAN_INTERVAL_MS,
            s.min_scan_interval == TAB_PRESET_PROCESS_TREE_SCAN_INTERVAL_MS,
            s.scan_interval == TAB_PRESET_PROCESS_TREE_SCAN_INTERVAL_MS,
            s.max_scan_interval == TAB_PRESET_PROCESS_TREE_MAX_SCAN_INTERVAL_MS,
            s.last_scan_at is None,
    {
        Self::with_policy(
            now,
            TAB_PRESET_PROCESS_TREE_SCAN_INTERVAL_MS,
            TAB_PRESET_PROCESS_TREE_SCAN_INTERVAL_MS,
            TAB_PRESET_PROCESS_TREE_MAX_SCAN_INTERVAL_MS,
        )
    }

    /// The slower schedule used when window events are hooked.
    pub fn hooked_fallback(now: u64) -> (s: Self)
        requires
            now + TAB_PRESET_HOOKED_PROCESS_TREE_SCAN_INTERVAL_MS <= u64::MAX,
        ensures
            s.wf(),
            s.next_scan_at == now + TAB_PRESET_HOOKED_PROCESS_TREE_SCAN_INTERVAL_MS,
            s.min_scan_interval == TAB_PRESET_HOOKED_PROCESS_TREE_SCAN_INTERVAL_MS,
            s.scan_interval == TAB_PRESET_HOOKED_PROCESS_TREE_SCAN_INTERVAL_MS,
            s.max_scan_interval == TAB_PRESET_HOOKED_PROCESS_TREE_MAX_SCAN_INTERVAL_MS,
            s.last_scan_at is None,
    {
        Self::with_policy(
            now,
            TAB_PRESET_HOOKED_PROCESS_TREE_SCAN_INTERVAL_MS,
            TAB_PRESET_HOOKED_PROCESS_TREE_SCAN_INTERVAL_MS,
            TAB_PRESET_HOOKED_PROCESS_TREE_MAX_SCAN_INTERVAL_MS,
        )
    }

    pub fn with_policy(
        now: u64,
        initial_scan_delay: u64,
        min_scan_interval: u64,
        max_scan_interval: u64,
    ) -> (s: Self)
        requires
            now + initial_scan_delay <= u64::MAX,
        ensures
            min_scan_interval <= max_scan_interval ==> s.wf(),
            s.next_scan_at == now + initial_scan_delay,
            s.min_scan_interval == min_scan_interval,
            s.scan_interval == min_scan_interval,
            s.max_scan_interval == max_scan_interval,
            s.last_scan_at is None,
    {
        ProcessTreeScanSchedule {
            next_scan_at: now + initial_scan_delay,
            min_scan_interval,
            scan_interval: min_scan_interval,
            max_scan_interval,
            last_scan_at: None,
        }
    }

    /// A scan is due once its time has come, or at the deadline unless the
    /// last scan was very recent.
    pub fn should_scan(&self, now: u64, deadline: u64) -> (b: bool)
        ensures
            b == (now >= self.next_scan_at || (now >= deadline && deadline_scan_allowed(
                self.last_scan_at,
                now,
            ))),
    {
        now >= self.next_scan_at || (now >= deadline && self.should_scan_at_deadline(now))
    }

    pub fn should_scan_at_deadline(&self, now: u64) -> (b: bool)
        ensures
            b == deadline_scan_allowed(self.last_scan_at, now),
    {
        match self.last_scan_at {
            None => true,
            Some(last_scan_at) => {
                if now >= last_scan_at {
                    now - last_scan_at >= TAB_PRESET_DEADLINE_RESCAN_SUPPRESSION_MS
                } else {
                    false
                }
            },
        }
    }

    /// Records a scan at `now`.  After a find the next scan is one minimum
    /// interval away; after an empty scan the interval doubles, up to the
    /// maximum.
    pub fn mark_completed(&mut self, now: u64, found_process: bool)
        requires
            found_process ==> now + old(self).min_scan_interval <= u64::MAX,
            !found_process ==> now + old(self).scan_interval <= u64::MAX,
        ensures
            old(self).wf() ==> final(self).wf(),
            final(self).last_scan_at == Some(now),
            final(self).min_scan_interval == old(self).min_scan_interval,
            final(self).max_scan_interval == old(self).max_scan_interval,
            found_process ==> final(self).next_scan_at == now + old(self).min_scan_interval
                && final(self).scan_interval == old(self).min_scan_interval,
            !found_process ==> final(self).next_scan_at == now + old(self).scan_interval
                && final(self).scan_interval == doubled_interval(
                old(self).scan_interval,
                old(self).max_scan_interval,
            ),
            *final(self) == scan_completed(*old(self), now, found_process),
    {
        self.last_scan_at = Some(now);
        if found_process {
            self.scan_interval = self.min_scan_interval;
        }
        self.next_scan_at = now + self.scan_interval;
        if !found_process {
            self.scan_interval = if self.scan_interval <= self.max_scan_interval
                && self.scan_interval <= self.max_scan_interval - self.scan_interval {
                self.scan_interval + self.scan_interval
            } else {
                self.max_scan_interval
            };
        }
    }
}

/// The schedule after a scan at `now` that found a new process or not.
pub open spec fn scan_completed(s: ProcessTreeScanSchedule, now: u64, found: bool) -> ProcessTreeScanSchedule {
    ProcessTreeScanSchedule {
        next_scan_at: if found {
            (now + s.min_scan_interval) as u64
        } else {
            (now + s.scan_interval) as u64
        },
        min_scan_interval: s.min_scan_interval,
        scan_interval: if found {
            s.min_scan_interval
        } else {
            doubled_interval(s.scan_interval, s.max_scan_interval)
        },
        max_scan_interval: s.max_scan_interval,
        last_scan_at: Some(now),
    }
}

/// Backoff law: however many scans were made, the interval stays between
/// the minimum and the maximum, and an empty scan never shortens it.
pub proof fn lemma_schedule_interval_bounds(s: ProcessTreeScanSchedule, now: u64, found: bool)
    requires
        s.wf(),
    ensures
        ({
            let next = if found {
                s.min_scan_interval
            } else {
                doubled_interval(s.scan_interval, s.max_scan_interval)
            };
            &&& s.min_scan_interval <= next <= s.max_scan_interval
            &&& !found ==> s.scan_interval <= next
            &&& scan_completed(s, now, found).wf()
        }),
{
}

/// The scan and thread-snapshot intervals a pending window search uses.
#[derive(Debug, Clone, Copy, PartialEq, Eq, Structural)]
pub struct PendingProcessWindowScanPolicy {
    pub initial_scan_delay: u64,
    pub min_scan_interval: u64,
    pub max_scan_interval: u64,
    pub initial_thread_snapshot_delay: u64,
    pub thread_snapshot_min_interval: u64,
    pub thread_snapshot_max_interval: u64,
}

impl PendingProcessWindowScanPolicy {
    pub fn standard(initial_scan_delay: u64) -> (p: Self)
        ensures
            p.initial_scan_delay == initial_scan_delay,
            p.min_scan_interval == TAB_PRESET_WINDOW_SCAN_INTERVAL_MS,
            p.max_scan_interval == TAB_PRESET_WINDOW_MAX_SCAN_INTERVAL_MS,
            p.initial_thread_snapshot_delay == TAB_PRESET_THREAD_SNAPSHOT_INTERVAL_MS,
            p.thread_snapshot_min_interval == TAB_PRESET_THREAD_SNAPSHOT_INTERVAL_MS,
            p.thread_snapshot_max_interval == TAB_PRESET_THREAD_SNAPSHOT_MAX_INTERVAL_MS,
    {
        PendingProcessWindowScanPolicy {
            initial_scan_delay,
            min_scan_interval: TAB_PRESET_WINDOW_SCAN_INTERVAL_MS,
            max_scan_interval: TAB_PRESET_WINDOW_MAX_SCAN_INTERVAL_MS,
            initial_thread_snapshot_delay: TAB_PRESET_THREAD_SNAPSHOT_INTERVAL_MS,
            thread_snapshot_min_interval: TAB_PRESET_THREAD_SNAPSHOT_INTERVAL_MS,
            thread_snapshot_max_interval: TAB_PRESET_THREAD_SNAPSHOT_MAX_INTERVAL_MS,
        }
    }

    /// The slower policy used when window events are hooked.
    pub fn hooked_fallback() -> (p: Self)
        ensures
            p.initial_scan_delay == TAB_PRESET_HOOKED_WINDOW_SCAN_INTERVAL_MS,
            p.min_scan_interval == TAB_PRESET_HOOKED_WINDOW_SCAN_INTERVAL_MS,
            p.max_scan_interval == TAB_PRESET_HOOKED_WINDOW_MAX_SCAN_INTERVAL_MS,
            p.initial_thread_snapshot_delay == TAB_PRESET_HOOKED_THREAD_SNAPSHOT_DELAY_MS,
            p.thread_snapshot_min_interval == TAB_PRESET_THREAD_SNAPSHOT_INTERVAL_MS,
            p.thread_snapshot_max_interval == TAB_PRESET_THREAD_SNAPSHOT_MAX_INTERVAL_MS,
    {
        PendingProcessWindowScanPolicy {
            initial_scan_delay: TAB_PRESET_HOOKED_WINDOW_SCAN_INTERVAL_MS,
            min_scan_interval: TAB_PRESET_HOOKED_WINDOW_SCAN_INTERVAL_MS,
            max_scan_interval: TAB_PRESET_HOOKED_WINDOW_MAX_SCAN_INTERVAL_MS,
            initial_thread_snapshot_delay: TAB_PRESET_HOOKED_THREAD_SNAPSHOT_DELAY_MS,
            thread_snapshot_min_interval: TAB_PRESET_THREAD_SNAPSHOT_INTERVAL_MS,
            thread_snapshot_max_interval: TAB_PRESET_THREAD_SNAPSHOT_MAX_INTERVAL_MS,
        }
    }
}


broadcast use vstd::std_specs::hash::group_hash_axioms;

/// Looks for the top-level windows of the processes a restored program
/// started: which processes still need a window, the windows found, and
/// when the next window scan and thread snapshot are due.
#[derive(Debug)]
pub struct PendingProcessWindowSearch {
    pub process_ids: HashSet<u32>,
    pub hwnds: HashMap<u32, isize>,
    pub remaining_process_ids: HashSet<u32>,
    pub next_scan_at: u64,
    pub min_scan_interval: u64,
    pub scan_interval: u64,
    pub max_scan_interval: u64,
    pub last_scan_at: Option<u64>,
    pub next_thread_snapshot_at: u64,
    pub thread_snapshot_min_interval: u64,
    pub thread_snapshot_interval: u64,
    pub thread_snapshot_max_interval: u64,
    pub last_thread_snapshot_at: Option<u64>,
}

impl PendingProcessWindowSearch {
    /// Each interval stays between its minimum and its maximum.
    pub open spec fn wf(&self) -> bool {
        &&& self.min_scan_interval <= self.scan_interval <= self.max_scan_interval
        &&& self.thread_snapshot_min_interval <= self.thread_snapshot_interval
            <= self.thread_snapshot_max_interval
    }

    /// Each minimum interval of a policy is at most its maximum.
    pub open spec fn policy_ok(policy: PendingProcessWindowScanPolicy) -> bool {
        &&& policy.min_scan_interval <= policy.max_scan_interval
        &&& policy.thread_snapshot_min_interval <= policy.thread_snapshot_max_interval
    }

    /// A search for the windows of the given (non-zero) process ids.
    pub fn from_process_ids_with_scan_policy(
        process_ids: Vec<u32>,
        now: u64,
        policy: PendingProcessWindowScanPolicy,
    ) -> (s: Self)
        requires
            now + policy.initial_scan_delay <= u64::MAX,
            now + policy.initial_thread_snapshot_delay <= u64::MAX,
        ensures
            Self::policy_ok(policy) ==> s.wf(),
            s.process_ids@ == process_ids@.to_set().remove(0),
            s.remaining_process_ids@ == s.process_ids@,
            s.hwnds@ == Map::<u32, isize>::empty(),
            s.next_scan_at == now + policy.initial_scan_delay,
            s.min_scan_interval == policy.min_scan_interval,
            s.scan_interval == policy.min_scan_interval,
            s.max_scan_interval == policy.max_scan_interval,
            s.last_scan_at is None,
            s.next_thread_snapshot_at == now + policy.initial_thread_snapshot_delay,
            s.thread_snapshot_min_interval == policy.thread_snapshot_min_interval,
            s.thread_snapshot_interval == policy.thread_snapshot_min_interval,
            s.thread_snapshot_max_interval == policy.thread_snapshot_max_interval,
            s.last_thread_snapshot_at is None,
    {
        let mut ids: HashSet<u32> = HashSet::new();
        let mut remaining: HashSet<u32> = HashSet::new();
        let mut k: usize = 0;
        while k < process_ids.len()
            invariant
                k <= process_ids@.len(),
                ids@ == process_ids@.subrange(0, k as int).to_set().remove(0),
                remaining@ == ids@,
            decreases process_ids@.len() - k,
        {
            let id = process_ids[k];
            if id != 0 {
                ids.insert(id);
                remaining.insert(id);
            }
            assert(process_ids@.subrange(0, k + 1 as int) =~= process_ids@.subrange(0, k as int).push(
                id,
            ));
            proof {
                process_ids@.subrange(0, k as int).lemma_push_to_set_commute(id);
            }
            k += 1;
            assert(ids@ =~= process_ids@.subrange(0, k as int).to_set().remove(0));
        }
        assert(process_ids@.subrange(0, process_ids@.len() as int) =~= process_ids@);
        PendingProcessWindowSearch {
            process_ids: ids,
            hwnds: HashMap::new(),
            remaining_process_ids: remaining,
            next_scan_at: now + policy.initial_scan_delay,
            min_scan_interval: policy.min_scan_interval,
            scan_interval: policy.min_scan_interval,
            max_scan_interval: policy.max_scan_interval,
            last_scan_at: None,
            next_thread_snapshot_at: now + policy.initial_thread_snapshot_delay,
            thread_snapshot_min_interval: policy.thread_snapshot_min_interval,
            thread_snapshot_interval: policy.thread_snapshot_min_interval,
            thread_snapshot_max_interval: policy.thread_snapshot_max_interval,
            last_thread_snapshot_at: None,
        }
    }

    /// A search with the standard policy and the given first-scan delay.
    pub fn from_process_ids_with_scan_delay(
        process_ids: Vec<u32>,
        now: u64,
        initial_scan_delay: u64,
    ) -> (s: Self)
        requires
            now + initial_scan_delay <= u64::MAX,
            now + TAB_PRESET_THREAD_SNAPSHOT_INTERVAL_MS <= u64::MAX,
        ensures
            s.wf(),
            s.process_ids@ == process_ids@.to_set().remove(0),
            s.remaining_process_ids@ == s.process_ids@,
            s.hwnds@ == Map::<u32, isize>::empty(),
            s.next_scan_at == now + initial_scan_delay,
            s.scan_interval == TAB_PRESET_WINDOW_SCAN_INTERVAL_MS,
            s.min_scan_interval == TAB_PRESET_WINDOW_SCAN_INTERVAL_MS,
            s.max_scan_interval == TAB_PRESET_WINDOW_MAX_SCAN_INTERVAL_MS,
            s.last_scan_at is None,
            s.next_thread_snapshot_at == now + TAB_PRESET_THREAD_SNAPSHOT_INTERVAL_MS,
            s.thread_snapshot_min_interval == TAB_PRESET_THREAD_SNAPSHOT_INTERVAL_MS,
            s.thread_snapshot_interval == TAB_PRESET_THREAD_SNAPSHOT_INTERVAL_MS,
            s.thread_snapshot_max_interval == TAB_PRESET_THREAD_SNAPSHOT_MAX_INTERVAL_MS,
            s.last_thread_snapshot_at is None,
    {
        Self::from_process_ids_with_scan_policy(
            process_ids,
            now,
            PendingProcessWindowScanPolicy::standard(initial_scan_delay),
        )
    }

    /// A search with the standard policy whose first scan is due at once.
    pub fn from_process_ids(process_ids: Vec<u32>, now: u64) -> (s: Self)
        requires
            now + TAB_PRESET_THREAD_SNAPSHOT_INTERVAL_MS <= u64::MAX,
        ensures
            s.wf(),
            s.process_ids@ == process_ids@.to_set().remove(0),
            s.remaining_process_ids@ == s.process_ids@,
            s.hwnds@ == Map::<u32, isize>::empty(),
            s.next_scan_at == now,
            s.scan_interval == TAB_PRESET_WINDOW_SCAN_INTERVAL_MS,
            s.min_scan_interval == TAB_PRESET_WINDOW_SCAN_INTERVAL_MS,
            s.max_scan_interval == TAB_PRESET_WINDOW_MAX_SCAN_INTERVAL_MS,
            s.last_scan_at is None,
            s.next_thread_snapshot_at == now + TAB_PRESET_THREAD_SNAPSHOT_INTERVAL_MS,
            s.thread_snapshot_min_interval == TAB_PRESET_THREAD_SNAPSHOT_INTERVAL_MS,
            s.thread_snapshot_interval == TAB_PRESET_THREAD_SNAPSHOT_INTERVAL_MS,
            s.thread_snapshot_max_interval == TAB_PRESET_THREAD_SNAPSHOT_MAX_INTERVAL_MS,
            s.last_thread_snapshot_at is None,
    {
        Self::from_process_ids_with_scan_delay(process_ids, now, 0)
    }

    /// Adds processes to look for: ids that are zero or already have a
    /// window are skipped; a new id also needs a window.
    pub fn add_process_ids(&mut self, process_ids: Vec<u32>)
        ensures
            final(self).hwnds@ == old(self).hwnds@,
            final(self).process_ids@ == old(self).process_ids@ + process_ids@.to_set().filter(
                |id: u32| id != 0 && !old(self).hwnds@.contains_key(id),
            ),
            final(self).remaining_process_ids@ == old(self).remaining_process_ids@
                + process_ids@.to_set().filter(
                |id: u32| id != 0 && !old(self).hwnds@.contains_key(id) && !old(
                    self,
                ).process_ids@.contains(id),
            ),
            final(self).next_scan_at == old(self).next_scan_at,
            final(self).scan_interval == old(self).scan_interval,
            final(self).min_scan_interval == old(self).min_scan_interval,
            final(self).max_scan_interval == old(self).max_scan_interval,
            final(self).last_scan_at == old(self).last_scan_at,
            final(self).next_thread_snapshot_at == old(self).next_thread_snapshot_at,
            final(self).thread_snapshot_interval == old(self).thread_snapshot_interval,
            final(self).thread_snapshot_min_interval == old(self).thread_snapshot_min_interval,
            final(self).thread_snapshot_max_interval == old(self).thread_snapshot_max_interval,
            final(self).last_thread_snapshot_at == old(self).last_thread_snapshot_at,
    {
        let ghost old_ids = self.process_ids@;
        let ghost old_remaining = self.remaining_process_ids@;
        let ghost hw = self.hwnds@;
        let mut k: usize = 0;
        while k < process_ids.len()
            invariant
                k <= process_ids@.len(),
                self.hwnds@ == hw,
                self.process_ids@ == old_ids + process_ids@.subrange(0, k as int).to_set().filter(
                    |id: u32| id != 0 && !hw.contains_key(id),
                ),
                self.remaining_process_ids@ == old_remaining + process_ids@.subrange(
                    0,
                    k as int,
                ).to_set().filter(|id: u32| id != 0 && !hw.contains_key(id) && !old_ids.contains(id)),
                self.next_scan_at == old(self).next_scan_at,
                self.scan_interval == old(self).scan_interval,
                self.min_scan_interval == old(self).min_scan_interval,
                self.max_scan_interval == old(self).max_scan_interval,
                self.last_scan_at == old(self).last_scan_at,
                self.next_thread_snapshot_at == old(self).next_thread_snapshot_at,
                self.thread_snapshot_interval == old(self).thread_snapshot_interval,
                self.thread_snapshot_min_interval == old(self).thread_snapshot_min_interval,
                self.thread_snapshot_max_interval == old(self).thread_snapshot_max_interval,
                self.last_thread_snapshot_at == old(self).last_thread_snapshot_at,
            decreases process_ids@.len() - k,
        {
            let id = process_ids[k];
            let ghost before_ids = self.process_ids@;
            let ghost before_remaining = self.remaining_process_ids@;
            if id != 0 && !self.hwnds.contains_key(&id) {
                if self.process_ids.insert(id) {
                    self.remaining_process_ids.insert(id);
                }
            }
            assert(process_ids@.subrange(0, k + 1 as int) =~= process_ids@.subrange(0, k as int).push(
                id,
            ));
            proof {
                process_ids@.subrange(0, k as int).lemma_push_to_set_commute(id);
            }
            k += 1;
            assert(self.process_ids@ =~= old_ids + process_ids@.subrange(0, k as int).to_set().filter(
                |id: u32| id != 0 && !hw.contains_key(id),
            ));
            assert(self.remaining_process_ids@ =~= old_remaining + process_ids@.subrange(
                0,
                k as int,
            ).to_set().filter(|id: u32| id != 0 && !hw.contains_key(id) && !old_ids.contains(id)));
        }
        assert(process_ids@.subrange(0, process_ids@.len() as int) =~= process_ids@);
    }

    /// Stops looking for a process.
    pub fn remove_process(&mut self, process_id: u32)
        ensures
            final(self).process_ids@ == old(self).process_ids@.remove(process_id),
            final(self).hwnds@ == old(self).hwnds@.remove(process_id),
            final(self).remaining_process_ids@ == old(self).remaining_process_ids@.remove(
                process_id,
            ),
            final(self).next_scan_at == old(self).next_scan_at,
            final(self).scan_interval == old(self).scan_interval,
            final(self).next_thread_snapshot_at == old(self).next_thread_snapshot_at,
            final(self).thread_snapshot_interval == old(self).thread_snapshot_interval,
    {
        self.process_ids.remove(&process_id);
        self.hwnds.remove(&process_id);
        self.remaining_process_ids.remove(&process_id);
    }

    /// Forgets every process and window.
    pub fn clear(&mut self)
        ensures
            final(self).process_ids@ == Set::<u32>::empty(),
            final(self).hwnds@ == Map::<u32, isize>::empty(),
            final(self).remaining_process_ids@ == Set::<u32>::empty(),
    {
        self.process_ids.clear();
        self.hwnds.clear();
        self.remaining_process_ids.clear();
    }

    /// The window found for a process.
    pub fn hwnd_for(&self, process_id: u32) -> (r: Option<isize>)
        ensures
            r == (if self.hwnds@.contains_key(process_id) {
                Some(self.hwnds@[process_id])
            } else {
                None
            }),
    {
        match self.hwnds.get(&process_id) {
            Some(hwnd) => Some(*hwnd),
            None => None,
        }
    }

    /// The processes for which a window was found.
    pub fn matched_process_ids(&self) -> (r: HashSet<u32>)
        ensures
            r@ == self.hwnds@.dom(),
    {
        let ghost keys = vstd::std_specs::hash::spec_keys_iter(&self.hwnds).remaining().unref();
        let mut out: HashSet<u32> = HashSet::new();
        for process_id in it: self.hwnds.keys()
            invariant
                it.seq().unref() == keys,
                keys.to_set() == self.hwnds@.dom(),
                out@ == keys.take(it.index()).to_set(),
        {
            let ghost prev = keys.take(it.index());
            assert(keys.take(it.index() + 1) =~= prev + seq![*process_id]);
            out.insert(*process_id);
            proof {
                Seq::lemma_to_set_insert_commutes(prev, *process_id);
            }
        }
        assert(keys.take(keys.len() as int) =~= keys);
        out
    }

    pub fn has_matches(&self) -> (b: bool)
        ensures
            b == !self.hwnds@.is_empty(),
    {
        !self.hwnds.is_empty()
    }

    pub fn has_match_for_process(&self, process_id: u32) -> (b: bool)
        ensures
            b == self.hwnds@.contains_key(process_id),
    {
        self.hwnds.contains_key(&process_id)
    }

    pub fn needs_window_for_process(&self, process_id: u32) -> (b: bool)
        ensures
            b == self.remaining_process_ids@.contains(process_id),
    {
        self.remaining_process_ids.contains(&process_id)
    }

    /// A window scan is due while some process still needs a window and
    /// its time has come (or the deadline has, unless a scan just ran).
    pub fn should_scan(&self, now: u64, deadline: u64) -> (b: bool)
        ensures
            b == (!self.remaining_process_ids@.is_empty() && (now >= self.next_scan_at || (now
                >= deadline && deadline_scan_allowed(self.last_scan_at, now)))),
    {
        !self.remaining_process_ids.is_empty() && (now >= self.next_scan_at || (now >= deadline
            && self.should_scan_at_deadline(now)))
    }

    /// Same as [`Self::should_scan`], for thread snapshots.
    pub fn should_scan_threads(&self, now: u64, deadline: u64) -> (b: bool)
        ensures
            b == (!self.remaining_process_ids@.is_empty() && (now >= self.next_thread_snapshot_at
                || (now >= deadline && deadline_scan_allowed(self.last_thread_snapshot_at, now)))),
    {
        !self.remaining_process_ids.is_empty() && (now >= self.next_thread_snapshot_at || (now
            >= deadline && self.should_scan_threads_at_deadline(now)))
    }

    pub fn should_scan_at_deadline(&self, now: u64) -> (b: bool)
        ensures
            b == deadline_scan_allowed(self.last_scan_at, now),
    {
        match self.last_scan_at {
            None => true,
            Some(last) => now >= last && now - last >= TAB_PRESET_DEADLINE_RESCAN_SUPPRESSION_MS,
        }
    }

    pub fn should_scan_threads_at_deadline(&self, now: u64) -> (b: bool)
        ensures
            b == deadline_scan_allowed(self.last_thread_snapshot_at, now),
    {
        match self.last_thread_snapshot_at {
            None => true,
            Some(last) => now >= last && now - last >= TAB_PRESET_DEADLINE_RESCAN_SUPPRESSION_MS,
        }
    }

    /// Records a window scan at `now`, with the same backoff as
    /// [`ProcessTreeScanSchedule::mark_completed`].
    pub fn mark_scan_completed(&mut self, now: u64, found_window: bool)
        requires
            found_window ==> now + old(self).min_scan_interval <= u64::MAX,
            !found_window ==> now + old(self).scan_interval <= u64::MAX,
        ensures
            old(self).wf() ==> final(self).wf(),
            final(self).last_scan_at == Some(now),
            found_window ==> final(self).next_scan_at == now + old(self).min_scan_interval
                && final(self).scan_interval == old(self).min_scan_interval,
            !found_window ==> final(self).next_scan_at == now + old(self).scan_interval
                && final(self).scan_interval == doubled_interval(
                old(self).scan_interval,
                old(self).max_scan_interval,
            ),
            final(self).min_scan_interval == old(self).min_scan_interval,
            final(self).max_scan_interval == old(self).max_scan_interval,
            final(self).process_ids@ == old(self).process_ids@,
            final(self).hwnds@ == old(self).hwnds@,
            final(self).remaining_process_ids@ == old(self).remaining_process_ids@,
            final(self).next_thread_snapshot_at == old(self).next_thread_snapshot_at,
            final(self).thread_snapshot_interval == old(self).thread_snapshot_interval,
            final(self).thread_snapshot_min_interval == old(self).thread_snapshot_min_interval,
            final(self).thread_snapshot_max_interval == old(self).thread_snapshot_max_interval,
            final(self).last_thread_snapshot_at == old(self).last_thread_snapshot_at,
    {
        self.last_scan_at = Some(now);
        if found_window {
            self.scan_interval = self.min_scan_interval;
        }
        self.next_scan_at = now + self.scan_interval;
        if !found_window {
            self.scan_interval = if self.scan_interval <= self.max_scan_interval
                && self.scan_interval <= self.max_scan_interval - self.scan_interval {
                self.scan_interval + self.scan_interval
            } else {
                self.max_scan_interval
            };
        }
    }

    /// Records a thread snapshot at `now`, with the same backoff.
    pub fn mark_thread_scan_completed(&mut self, now: u64, found_window: bool)
        requires
            found_window ==> now + old(self).thread_snapshot_min_interval <= u64::MAX,
            !found_window ==> now + old(self).thread_snapshot_interval <= u64::MAX,
        ensures
            old(self).wf() ==> final(self).wf(),
            final(self).last_thread_snapshot_at == Some(now),
            found_window ==> final(self).next_thread_snapshot_at == now + old(
                self,
            ).thread_snapshot_min_interval && final(self).thread_snapshot_interval == old(
                self,
            ).thread_snapshot_min_interval,
            !found_window ==> final(self).next_thread_snapshot_at == now + old(
                self,
            ).thread_snapshot_interval && final(self).thread_snapshot_interval == doubled_interval(
                old(self).thread_snapshot_interval,
                old(self).thread_snapshot_max_interval,
            ),
            final(self).thread_snapshot_min_interval == old(self).thread_snapshot_min_interval,
            final(self).thread_snapshot_max_interval == old(self).thread_snapshot_max_interval,
            final(self).process_ids@ == old(self).process_ids@,
            final(self).hwnds@ == old(self).hwnds@,
            final(self).remaining_process_ids@ == old(self).remaining_process_ids@,
            final(self).next_scan_at == old(self).next_scan_at,
            final(self).scan_interval == old(self).scan_interval,
            final(self).min_scan_interval == old(self).min_scan_interval,
            final(self).max_scan_interval == old(self).max_scan_interval,
            final(self).last_scan_at == old(self).last_scan_at,
    {
        self.last_thread_snapshot_at = Some(now);
        if found_window {
            self.thread_snapshot_interval = self.thread_snapshot_min_interval;
        }
        self.next_thread_snapshot_at = now + self.thread_snapshot_interval;
        if !found_window {
            self.thread_snapshot_interval = if self.thread_snapshot_interval <= self.thread_snapshot_max_interval
                && self.thread_snapshot_interval <= self.thread_snapshot_max_interval - self.thread_snapshot_interval {
                self.thread_snapshot_interval + self.thread_snapshot_interval
            } else {
                self.thread_snapshot_max_interval
            };
        }
    }

    /// Records a window found for a process: it is kept unless the process
    /// already has a window that lies above it (`above_existing` tells
    /// whether the new window is above the one already recorded).  The
    /// process no longer needs a window either way.
    pub fn record_process_window(&mut self, process_id: u32, hwnd: isize, above_existing: bool)
        ensures
            final(self).hwnds@ == (if !old(self).hwnds@.contains_key(process_id)
                || above_existing {
                old(self).hwnds@.insert(process_id, hwnd)
            } else {
                old(self).hwnds@
            }),
            final(self).remaining_process_ids@ == old(self).remaining_process_ids@.remove(
                process_id,
            ),
            final(self).process_ids@ == old(self).process_ids@,
            final(self).next_scan_at == old(self).next_scan_at,
            final(self).last_scan_at == old(self).last_scan_at,
            final(self).next_thread_snapshot_at == old(self).next_thread_snapshot_at,
            final(self).last_thread_snapshot_at == old(self).last_thread_snapshot_at,
    {
        if !self.hwnds.contains_key(&process_id) || above_existing {
            self.hwnds.insert(process_id, hwnd);
        }
        self.remaining_process_ids.remove(&process_id);
    }

    /// A window event of the window system about `hwnd`: a visible,
    /// unowned top-level window of one of the searched processes counts as
    /// that process's window.  Tells whether it was recorded.
    pub fn record_window_event(
        &mut self,
        is_visible_root_unowned: bool,
        process_id: u32,
        hwnd: isize,
        above_existing: bool,
    ) -> (recorded: bool)
        ensures
            recorded == (is_visible_root_unowned && old(self).process_ids@.contains(process_id)),
            recorded ==> final(self).hwnds@ == (if !old(self).hwnds@.contains_key(process_id)
                || above_existing {
                old(self).hwnds@.insert(process_id, hwnd)
            } else {
                old(self).hwnds@
            }) && final(self).remaining_process_ids@ == old(
                self,
            ).remaining_process_ids@.remove(process_id),
            !recorded ==> *final(self) == *old(self),
            final(self).process_ids@ == old(self).process_ids@,
            final(self).next_scan_at == old(self).next_scan_at,
            final(self).last_scan_at == old(self).last_scan_at,
    {
        if !is_visible_root_unowned {
            return false;
        }
        if !self.process_ids.contains(&process_id) {
            return false;
        }
        self.record_process_window(process_id, hwnd, above_existing);
        true
    }

    /// What a refresh at `now` has to scan: `None` when no window scan is
    /// due, else whether a thread snapshot is due as well.
    pub fn refresh_plan(&self, now: u64, deadline: u64) -> (r: Option<bool>)
        ensures
            r == (if !self.remaining_process_ids@.is_empty() && (now >= self.next_scan_at || (now
                >= deadline && deadline_scan_allowed(self.last_scan_at, now))) {
                Some(
                    now >= self.next_thread_snapshot_at || (now >= deadline
                        && deadline_scan_allowed(self.last_thread_snapshot_at, now)),
                )
            } else {
                None
            }),
    {
        if !self.should_scan(now, deadline) {
            return None;
        }
        let scan_threads = self.should_scan_threads(now, deadline);
        if self.remaining_process_ids.is_empty() {
            return None;
        }
        Some(scan_threads)
    }

    /// Records the scans of a refresh at `now`, after the window search
    /// (with a thread snapshot when `scan_threads`) ran; `found_before` is
    /// how many processes had a window before it.  Tells whether it found
    /// a new window.
    pub fn finish_refresh(
        &mut self,
        now: u64,
        scan_threads: bool,
        found_thread_window: bool,
        found_before: usize,
    ) -> (found_window: bool)
        requires
            old(self).hwnds@.len() > found_before ==> now + old(self).min_scan_interval <= u64::MAX,
            old(self).hwnds@.len() <= found_before ==> now + old(self).scan_interval <= u64::MAX,
            scan_threads && found_thread_window ==> now + old(self).thread_snapshot_min_interval
                <= u64::MAX,
            scan_threads && !found_thread_window ==> now + old(self).thread_snapshot_interval
                <= u64::MAX,
        ensures
            old(self).wf() ==> final(self).wf(),
            found_window == (old(self).hwnds@.len() > found_before),
            final(self).hwnds@ == old(self).hwnds@,
            final(self).process_ids@ == old(self).process_ids@,
            final(self).remaining_process_ids@ == old(self).remaining_process_ids@,
            final(self).last_scan_at == Some(now),
            found_window ==> final(self).next_scan_at == now + old(self).min_scan_interval,
            !found_window ==> final(self).next_scan_at == now + old(self).scan_interval,
            scan_threads ==> final(self).last_thread_snapshot_at == Some(now),
            !scan_threads ==> final(self).last_thread_snapshot_at == old(self).last_thread_snapshot_at
                && final(self).next_thread_snapshot_at == old(self).next_thread_snapshot_at,
    {
        if scan_threads {
            self.mark_thread_scan_completed(now, found_thread_window);
        }
        let found_window = self.hwnds.len() > found_before;
        self.mark_scan_completed(now, found_window);
        found_window
    }
}

} // verus!
