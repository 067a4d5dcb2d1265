use vstd::prelude::*;

verus! {

/// Where move and size events of external windows are posted: the main
/// window while drop detection runs, else nowhere (0).
#[derive(Debug, Clone, Copy, PartialEq, Eq, Structural)]
pub struct DropMoveEventRouter {
    pub target_hwnd: isize,
}

impl DropMoveEventRouter {
    pub fn new() -> (r: Self)
        ensures
            r.target_hwnd == 0,
    {
        DropMoveEventRouter { target_hwnd: 0 }
    }

    pub fn publish_target(&mut self, hwnd: isize)
        ensures
            final(self).target_hwnd == hwnd,
    {
        self.target_hwnd = hwnd;
    }

    /// Stops posting, but only if `hwnd` is still the published target.
    pub fn clear_target(&mut self, hwnd: isize)
        ensures
            old(self).target_hwnd == hwnd ==> final(self).target_hwnd == 0,
            old(self).target_hwnd != hwnd ==> final(self).target_hwnd == old(self).target_hwnd,
    {
        if self.target_hwnd == hwnd {
            self.target_hwnd = 0;
        }
    }

    /// The window a move or size event is posted to, if any.
    pub fn target_for_move_size_event(&self) -> (r: Option<isize>)
        ensures
            self.target_hwnd == 0 ==> r is None,
            self.target_hwnd != 0 ==> r == Some(self.target_hwnd),
    {
        if self.target_hwnd == 0 {
            None
        } else {
            Some(self.target_hwnd)
        }
    }
}

/// Where window events of launched preset programs are posted.
#[derive(Debug, Clone, Copy, PartialEq, Eq, Structural)]
pub struct TabPresetProgramWindowEventRouter {
    pub target_hwnd: isize,
}

impl TabPresetProgramWindowEventRouter {
    pub fn new() -> (r: Self)
        ensures
            r.target_hwnd == 0,
    {
        TabPresetProgramWindowEventRouter { target_hwnd: 0 }
    }

    pub fn publish_target(&mut self, hwnd: isize)
        ensures
            final(self).target_hwnd == hwnd,
    {
        self.target_hwnd = hwnd;
    }

    /// Stops posting, but only if `hwnd` is still the published target.
    pub fn clear_target(&mut self, hwnd: isize)
        ensures
            old(self).target_hwnd == hwnd ==> final(self).target_hwnd == 0,
            old(self).target_hwnd != hwnd ==> final(self).target_hwnd == old(self).target_hwnd,
    {
        if self.target_hwnd == hwnd {
            self.target_hwnd = 0;
        }
    }

    /// The window an event about `hwnd` is posted to: none without a target
    /// or for a null window.
    pub fn target_for_window_event(&self, hwnd: isize) -> (r: Option<isize>)
        ensures
            r == (if self.target_hwnd == 0 || hwnd == 0 {
                None
            } else {
                Some(self.target_hwnd)
            }),
    {
        if self.target_hwnd == 0 || hwnd == 0 {
            None
        } else {
            Some(self.target_hwnd)
        }
    }
}

/// `x` rotated right by 16 bits.
pub open spec fn rotated_right_16(x: usize) -> usize {
    (x >> 16usize) | (x << ((usize::BITS - 16) as usize))
}

/// Two bits picked from a window handle, for the quick filter in front of
/// the list of interesting windows.
pub open spec fn filter_bits(hwnd: isize) -> usize {
    let value = hwnd as usize;
    let first = vstd::wrapping::usize_specs::wrapping_mul(value, 0x9E37_79B1);
    let second = vstd::wrapping::usize_specs::wrapping_mul(
        rotated_right_16(value),
        0x85EB_CA6B,
    );
    (1usize << (first % (usize::BITS as usize))) | (1usize << (second % (usize::BITS as usize)))
}

pub fn hwnd_filter_bits(hwnd: isize) -> (r: usize)
    ensures
        r == filter_bits(hwnd),
{
    let bit_count: usize = usize::BITS as usize;
    let value: usize = hwnd as usize;
    let first = value.wrapping_mul(0x9E37_79B1);
    let rotated: usize = (value >> 16usize) | (value << ((usize::BITS - 16) as usize));
    let second = rotated.wrapping_mul(0x85EB_CA6B);
    (1usize << (first % bit_count)) | (1usize << (second % bit_count))
}

/// The filter of a list of windows covers the bits of each of them.
pub open spec fn filter_covers(filter: usize, hwnds: Seq<isize>) -> bool {
    forall|i: int| 0 <= i < hwnds.len() ==> #[trigger] filter_bits(hwnds[i]) & filter == filter_bits(
        hwnds[i],
    )
}

proof fn lemma_or_keeps_cover(x: usize, f: usize, b: usize)
    requires
        x & f == x,
    ensures
        x & (f | b) == x,
{
    assert(x & f == x ==> x & (f | b) == x) by (bit_vector);
}

proof fn lemma_or_covers(b: usize, f: usize)
    ensures
        b & (f | b) == b,
{
    assert(b & (f | b) == b) by (bit_vector);
}

/// The union of the filter bits of the given windows, in order.
pub open spec fn filter_of(hwnds: Seq<isize>) -> usize
    decreases hwnds.len(),
{
    if hwnds.len() == 0 {
        0
    } else {
        filter_of(hwnds.drop_last()) | filter_bits(hwnds.last())
    }
}

/// The union of the filter bits of the given windows.
pub fn interested_hwnd_filter(hwnds: &[isize]) -> (r: usize)
    ensures
        r == filter_of(hwnds@),
        filter_covers(r, hwnds@),
{
    let mut filter: usize = 0;
    let mut k: usize = 0;
    while k < hwnds.len()
        invariant
            k <= hwnds@.len(),
            filter_covers(filter, hwnds@.subrange(0, k as int)),
            filter == filter_of(hwnds@.subrange(0, k as int)),
        decreases hwnds@.len() - k,
    {
        let bits = hwnd_filter_bits(hwnds[k]);
        proof {
            let before = hwnds@.subrange(0, k as int);
            let after = hwnds@.subrange(0, k + 1 as int);
            assert(after.drop_last() =~= before);
            assert forall|i: int| 0 <= i < after.len() implies #[trigger] filter_bits(after[i])
                & (filter | bits) == filter_bits(after[i]) by {
                if i < k {
                    assert(after[i] == before[i]);
                    lemma_or_keeps_cover(filter_bits(after[i]), filter, bits);
                } else {
                    lemma_or_covers(bits, filter);
                }
            }
        }
        filter = filter | bits;
        k += 1;
    }
    assert(hwnds@.subrange(0, hwnds@.len() as int) =~= hwnds@);
    filter
}

/// Strictly increasing, so without duplicates.
pub open spec fn strictly_sorted(s: Seq<isize>) -> bool {
    forall|i: int, j: int| 0 <= i < j < s.len() ==> s[i] < s[j]
}

/// The first position of a sorted list whose entry is not below `value`.
fn lower_bound(sorted: &Vec<isize>, value: isize) -> (p: usize)
    requires
        strictly_sorted(sorted@),
    ensures
        p <= sorted@.len(),
        forall|i: int| 0 <= i < p ==> sorted@[i] < value,
        forall|i: int| p <= i < sorted@.len() ==> sorted@[i] >= value,
{
    let mut low: usize = 0;
    let mut high: usize = sorted.len();
    while low < high
        invariant
            low <= high <= sorted@.len(),
            strictly_sorted(sorted@),
            forall|i: int| 0 <= i < low ==> sorted@[i] < value,
            forall|i: int| high <= i < sorted@.len() ==> sorted@[i] >= value,
        decreases high - low,
    {
        let mid = low + (high - low) / 2;
        if sorted[mid] < value {
            low = mid + 1;
        } else {
            high = mid;
        }
    }
    low
}

/// Whether a sorted list holds a value.
pub fn sorted_contains(sorted: &Vec<isize>, value: isize) -> (b: bool)
    requires
        strictly_sorted(sorted@),
    ensures
        b == sorted@.contains(value),
{
    let p = lower_bound(sorted, value);
    if p < sorted.len() && sorted[p] == value {
        true
    } else {
        proof {
            if sorted@.contains(value) {
                let i = choose|i: int| 0 <= i < sorted@.len() && sorted@[i] == value;
                assert(i >= p);
                if i > p {
                    assert(sorted@[p as int] < sorted@[i]);
                }
            }
        }
        false
    }
}

/// The windows whose title changes are of interest, and where to post
/// those changes.
#[derive(Debug, Clone)]
pub struct WindowNameChangeEventRouter {
    target_hwnd: isize,
    interested_hwnd_filter: usize,
    interested_hwnds: Vec<isize>,
}

impl WindowNameChangeEventRouter {
    /// The list is sorted without duplicates or null handles, and the
    /// filter covers every listed window.
    pub closed spec fn wf(&self) -> bool {
        &&& strictly_sorted(self.interested_hwnds@)
        &&& !self.interested_hwnds@.contains(0)
        &&& filter_covers(self.interested_hwnd_filter, self.interested_hwnds@)
        &&& self.interested_hwnd_filter == filter_of(self.interested_hwnds@)
    }

    /// The windows of interest, in increasing order.
    pub closed spec fn spec_list(&self) -> Seq<isize> {
        self.interested_hwnds@
    }

    /// The filter kept for the windows of interest.
    pub closed spec fn spec_filter(&self) -> usize {
        self.interested_hwnd_filter
    }

    pub closed spec fn spec_target(&self) -> isize {
        self.target_hwnd
    }

    /// The windows of interest.
    pub closed spec fn spec_interested(&self) -> Set<isize> {
        self.interested_hwnds@.to_set()
    }

    pub fn new() -> (r: Self)
        ensures
            r.wf(),
            r.spec_target() == 0,
            r.spec_interested() == Set::<isize>::empty(),
            r.spec_list().len() == 0,
            r.spec_filter() == 0,
    {
        let r = WindowNameChangeEventRouter {
            target_hwnd: 0,
            interested_hwnd_filter: 0,
            interested_hwnds: Vec::new(),
        };
        assert(r.interested_hwnds@.to_set() =~= Set::<isize>::empty());
        r
    }

    /// Posts to `hwnd` from now on, with no window of interest yet.
    pub fn publish_target(&mut self, hwnd: isize)
        requires
            old(self).wf(),
        ensures
            final(self).wf(),
            final(self).spec_target() == hwnd,
            final(self).spec_interested() == Set::<isize>::empty(),
    {
        self.clear_interested_hwnds();
        self.target_hwnd = hwnd;
    }

    /// Stops posting, but only if `hwnd` is still the published target;
    /// the windows of interest go with it.
    pub fn clear_target(&mut self, hwnd: isize)
        requires
            old(self).wf(),
        ensures
            final(self).wf(),
            old(self).spec_target() == hwnd ==> final(self).spec_target() == 0
                && final(self).spec_interested() == Set::<isize>::empty(),
            old(self).spec_target() != hwnd ==> final(self).spec_target() == old(self).spec_target()
                && final(self).spec_interested() == old(self).spec_interested(),
    {
        if self.target_hwnd == hwnd {
            self.target_hwnd = 0;
            self.clear_interested_hwnds();
        }
    }

    /// The windows of interest become the non-null ones given.
    pub fn replace_interested_hwnds(&mut self, hwnds: Vec<isize>)
        requires
            old(self).wf(),
        ensures
            final(self).wf(),
            final(self).spec_target() == old(self).spec_target(),
            final(self).spec_interested() == hwnds@.to_set().remove(0),
            strictly_sorted(final(self).spec_list()),
            final(self).spec_list().to_set() == hwnds@.to_set().remove(0),
            final(self).spec_filter() == filter_of(final(self).spec_list()),
    {
        let mut next: Vec<isize> = Vec::new();
        let mut k: usize = 0;
        while k < hwnds.len()
            invariant
                k <= hwnds@.len(),
                strictly_sorted(next@),
                next@.to_set() == hwnds@.subrange(0, k as int).to_set().remove(0),
            decreases hwnds@.len() - k,
        {
            let hwnd = hwnds[k];
            proof {
                let before = hwnds@.subrange(0, k as int);
                assert(hwnds@.subrange(0, k + 1 as int) =~= before.push(hwnd));
                before.lemma_push_to_set_commute(hwnd);
            }
            if hwnd != 0 {
                let p = lower_bound(&next, hwnd);
                if p < next.len() && next[p] == hwnd {
                    assert(next@.to_set().insert(hwnd) =~= next@.to_set());
                } else {
                    let ghost old_next = next@;
                    next.insert(p, hwnd);
                    proof {
                        assert forall|i: int, j: int| 0 <= i < j < next@.len() implies next@[i]
                            < next@[j] by {
                            if j < p {
                            } else if j == p {
                            } else if i < p {
                                assert(next@[j] == old_next[j - 1]);
                            } else if i == p {
                                assert(next@[j] == old_next[j - 1]);
                            } else {
                                assert(next@[i] == old_next[i - 1]);
                                assert(next@[j] == old_next[j - 1]);
                            }
                        }
                        assert forall|x: isize| next@.to_set().contains(x) <==> old_next.to_set().insert(
                            hwnd,
                        ).contains(x) by {
                            if next@.contains(x) {
                                let i = choose|i: int| 0 <= i < next@.len() && next@[i] == x;
                                if i < p {
                                    assert(old_next[i] == x);
                                } else if i > p {
                                    assert(old_next[i - 1] == x);
                                }
                            }
                            if old_next.contains(x) {
                                let i = choose|i: int| 0 <= i < old_next.len() && old_next[i] == x;
                                if i < p {
                                    assert(next@[i] == x);
                                } else {
                                    assert(next@[i + 1] == x);
                                }
                            }
                            if x == hwnd {
                                assert(next@[p as int] == hwnd);
                            }
                        }
                        assert(next@.to_set() =~= old_next.to_set().insert(hwnd));
                    }
                }
                proof {
                    assert(hwnds@.subrange(0, k as int).to_set().insert(hwnd).remove(0)
                        =~= hwnds@.subrange(0, k as int).to_set().remove(0).insert(hwnd));
                }
            } else {
                proof {
                    assert(hwnds@.subrange(0, k as int).to_set().insert(0).remove(0)
                        =~= hwnds@.subrange(0, k as int).to_set().remove(0));
                }
            }
            k += 1;
        }
        assert(hwnds@.subrange(0, hwnds@.len() as int) =~= hwnds@);
        assert(!next@.to_set().contains(0));
        let filter = interested_hwnd_filter(next.as_slice());
        self.interested_hwnds = next;
        self.interested_hwnd_filter = filter;
    }

    /// No window is of interest any more.
    pub fn clear_interested_hwnds(&mut self)
        requires
            old(self).wf(),
        ensures
            final(self).wf(),
            final(self).spec_target() == old(self).spec_target(),
            final(self).spec_interested() == Set::<isize>::empty(),
            final(self).spec_list().len() == 0,
            final(self).spec_filter() == 0,
    {
        self.interested_hwnd_filter = 0;
        self.interested_hwnds.clear();
        assert(self.interested_hwnds@.to_set() =~= Set::<isize>::empty());
    }

    /// Whether a window is of interest: the quick filter first, then the
    /// sorted list.
    pub fn contains_interested_hwnd(&self, hwnd: isize) -> (b: bool)
        requires
            self.wf(),
        ensures
            b == self.spec_interested().contains(hwnd),
    {
        let bits = hwnd_filter_bits(hwnd);
        if self.interested_hwnd_filter & bits != bits {
            proof {
                if self.interested_hwnds@.contains(hwnd) {
                    let i = choose|i: int|
                        0 <= i < self.interested_hwnds@.len() && self.interested_hwnds@[i] == hwnd;
                    assert(filter_bits(self.interested_hwnds@[i]) & self.interested_hwnd_filter
                        == filter_bits(self.interested_hwnds@[i]));
                    let f = self.interested_hwnd_filter;
                    assert(bits & f == f & bits) by (bit_vector);
                }
            }
            return false;
        }
        sorted_contains(&self.interested_hwnds, hwnd)
    }

    /// The window a title change of `hwnd` is posted to: the target, when
    /// there is one and `hwnd` is a window of interest.
    pub fn should_post_name_change_event(&self, hwnd: isize) -> (r: Option<isize>)
        requires
            self.wf(),
        ensures
            r == (if self.spec_target() == 0 || hwnd == 0 || !self.spec_interested().contains(
                hwnd,
            ) {
                None
            } else {
                Some(self.spec_target())
            }),
    {
        let target = self.target_hwnd;
        if target == 0 || hwnd == 0 {
            return None;
        }
        if !self.contains_interested_hwnd(hwnd) {
            return None;
        }
        Some(target)
    }
}

} // verus!
