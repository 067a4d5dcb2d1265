use vstd::prelude::*;

use crate::geometry::TabId;
use crate::status_text::TabStatusLabel;
use crate::text::{decimal_digits, push_decimal, push_str};
use crate::ui_policy::{popup_selected_command, CMD_TAB_OVERFLOW_BASE, CMD_TAB_OVERFLOW_END};

verus! {

/// Which way the tab strip scrolls while a dragged tab nears its edge.
#[derive(Debug, Clone, Copy, PartialEq, Eq, Structural)]
pub enum TabReorderAutoScroll {
    Backward,
    Forward,
}

/// Where a dragged tab would be put: before a tab, or at the end, and the
/// x coordinate of the insertion mark.
#[derive(Debug, Clone, Copy, PartialEq, Eq, Structural)]
pub struct TabReorderInsertion {
    pub before_tab_id: Option<TabId>,
    pub x: i32,
}

/// A tab being dragged to a new position.
#[derive(Debug, Clone, Copy, PartialEq, Eq, Structural)]
pub struct TabReorderDrag {
    pub tab_id: TabId,
    pub insertion: Option<TabReorderInsertion>,
}

impl TabReorderDrag {
    pub fn new(tab_id: TabId) -> (d: Self)
        ensures
            d.tab_id == tab_id,
            d.insertion is None,
    {
        TabReorderDrag { tab_id, insertion: None }
    }

    /// Records where the tab would now be put; tells whether that changed.
    pub fn record_insertion(&mut self, insertion: TabReorderInsertion) -> (changed: bool)
        ensures
            changed == (old(self).insertion != Some(insertion)),
            final(self).insertion == Some(insertion),
            final(self).tab_id == old(self).tab_id,
    {
        let changed = match self.insertion {
            Some(current) => current != insertion,
            None => true,
        };
        if changed {
            self.insertion = Some(insertion);
        }
        changed
    }
}

/// The first visible tab after one auto-scroll step of the tab strip, or
/// `None` when the strip cannot scroll that way.
pub fn scrolled_first_visible_index(
    direction: TabReorderAutoScroll,
    first_visible_index: usize,
    visible_end_index: usize,
    tab_count: usize,
) -> (r: Option<usize>)
    requires
        first_visible_index <= visible_end_index,
    ensures
        r == (match direction {
            TabReorderAutoScroll::Backward => if first_visible_index > 0 {
                Some((first_visible_index - 1) as usize)
            } else {
                None::<usize>
            },
            TabReorderAutoScroll::Forward => if visible_end_index < tab_count {
                Some((first_visible_index + 1) as usize)
            } else {
                None::<usize>
            },
        }),
{
    match direction {
        TabReorderAutoScroll::Backward => {
            if first_visible_index > 0 {
                Some(first_visible_index - 1)
            } else {
                None
            }
        },
        TabReorderAutoScroll::Forward => {
            if visible_end_index < tab_count {
                Some(first_visible_index + 1)
            } else {
                None
            }
        },
    }
}

/// The position of the first tab with this id.
pub fn tab_index(tab_ids: &[TabId], tab_id: TabId) -> (r: Option<usize>)
    ensures
        r matches Some(i) ==> i < tab_ids@.len() && tab_ids@[i as int] == tab_id && forall|j: int|
            0 <= j < i ==> tab_ids@[j] != tab_id,
        r is None ==> !tab_ids@.contains(tab_id),
{
    let mut i: usize = 0;
    while i < tab_ids.len()
        invariant
            i <= tab_ids@.len(),
            forall|j: int| 0 <= j < i ==> tab_ids@[j] != tab_id,
        decreases tab_ids@.len() - i,
    {
        if tab_ids[i] == tab_id {
            return Some(i);
        }
        i += 1;
    }
    None
}

/// The tab before which an insertion at `before_index` puts the dragged
/// tab; `None` for the end of the strip.
pub fn before_tab_id_for_insertion_index(tab_ids: &[TabId], before_index: usize) -> (r: Option<
    TabId,
>)
    ensures
        r == (if before_index < tab_ids@.len() {
            Some(tab_ids@[before_index as int])
        } else {
            None::<TabId>
        }),
{
    if before_index < tab_ids.len() {
        Some(tab_ids[before_index])
    } else {
        None
    }
}

/// The tab the strip keeps in view: the active one, except while a tab is
/// being dragged.
pub fn tab_strip_active_anchor_index(reorder_dragging: bool, active_index: Option<usize>) -> (r:
    Option<usize>)
    ensures
        r == (if reorder_dragging {
            None::<usize>
        } else {
            active_index
        }),
{
    if reorder_dragging {
        None
    } else {
        active_index
    }
}

/// Two labels name the same tab with the same text.
pub open spec fn same_label(a: TabStatusLabel, b: TabStatusLabel) -> bool {
    a.tab_id == b.tab_id && match (a.name, b.name) {
        (Some(x), Some(y)) => x@ == y@,
        (None, None) => true,
        _ => false,
    }
}

/// The tab that becomes active when the active tab `deleted_tab` is
/// deleted: the one after it, or the one before it when it is the last.
/// `None` when the deleted tab is not the active one, is not listed, or is
/// the only tab.
pub fn automatic_active_after_deletion_status_label(
    tabs: &[TabStatusLabel],
    active_tab_id: Option<TabId>,
    deleted_tab: TabId,
) -> (r: Option<TabStatusLabel>)
    ensures
        active_tab_id != Some(deleted_tab) ==> r is None,
        (forall|j: int| 0 <= j < tabs@.len() ==> (#[trigger] tabs@[j]).tab_id != deleted_tab) ==> r
            is None,
        active_tab_id == Some(deleted_tab) && tabs@.len() <= 1 ==> r is None,
        forall|i: int|
            #![trigger tabs@[i]]
            0 <= i < tabs@.len() && tabs@[i].tab_id == deleted_tab && (forall|j: int|
                0 <= j < i ==> tabs@[j].tab_id != deleted_tab) && active_tab_id == Some(deleted_tab)
                && tabs@.len() > 1 ==> {
                let target = if i + 1 < tabs@.len() {
                    tabs@[i + 1]
                } else {
                    tabs@[i - 1]
                };
                r matches Some(label) && same_label(label, target)
            },
{
    if active_tab_id != Some(deleted_tab) {
        return None;
    }
    let mut index: usize = 0;
    while index < tabs.len() && tabs[index].tab_id != deleted_tab
        invariant
            index <= tabs@.len(),
            forall|j: int| 0 <= j < index ==> tabs@[j].tab_id != deleted_tab,
        decreases tabs@.len() - index,
    {
        index += 1;
    }
    if index == tabs.len() {
        return None;
    }
    if tabs.len() <= 1 {
        return None;
    }
    let target = if index + 1 < tabs.len() {
        &tabs[index + 1]
    } else {
        &tabs[index - 1]
    };
    let name = match &target.name {
        Some(name) => Some(name.clone()),
        None => None,
    };
    Some(TabStatusLabel { tab_id: target.tab_id, name })
}

/// The tab chosen from the overflow popup: the tab of the first menu
/// entry whose command the popup returned; nothing when it was dismissed.
pub fn overflow_tab_for_selection(command_tabs: &[(u16, TabId)], selected: i32, hwnd: isize) -> (r:
    Option<TabId>)
    ensures
        match popup_selected_command_spec(selected, hwnd) {
            None => r is None,
            Some(command) => match r {
                Some(t) => exists|i: int|
                    #![trigger command_tabs@[i]]
                    0 <= i < command_tabs@.len() && command_tabs@[i] == (command, t) && forall|j: int|
                        0 <= j < i ==> (#[trigger] command_tabs@[j]).0 != command,
                None => forall|i: int|
                    0 <= i < command_tabs@.len() ==> (#[trigger] command_tabs@[i]).0 != command,
            },
        },
{
    let command_id = match popup_selected_command(selected, hwnd) {
        Some(command) => command,
        None => {
            return None;
        },
    };
    let mut i: usize = 0;
    while i < command_tabs.len()
        invariant
            i <= command_tabs@.len(),
            forall|j: int| 0 <= j < i ==> (#[trigger] command_tabs@[j]).0 != command_id,
            popup_selected_command_spec(selected, hwnd) == Some(command_id),
        decreases command_tabs@.len() - i,
    {
        let (command, tab_id) = command_tabs[i];
        if command == command_id {
            assert(0 <= i < command_tabs@.len() && command_tabs@[i as int] == (command_id, tab_id)
                && forall|j: int| 0 <= j < i ==> (#[trigger] command_tabs@[j]).0 != command_id);
            return Some(tab_id);
        }
        i += 1;
    }
    None
}

/// The command a popup returned, as [`popup_selected_command`] reads it.
pub open spec fn popup_selected_command_spec(selected: i32, hwnd: isize) -> Option<u16> {
    if selected == 0 || hwnd == 0 || selected < 0 || selected > u16::MAX {
        None
    } else {
        Some(selected as u16)
    }
}

/// An entry of the overflow popup: its command, the hidden tab it selects
/// and its text (the tab's position, from 1, and its name).
#[derive(Debug, Clone, PartialEq, Eq)]
pub struct TabOverflowMenuItem {
    pub command: u16,
    pub tab_id: TabId,
    pub label: String,
}

/// How many of the tabs before `index` are hidden, when the tabs in
/// `[first_visible, visible_end)` are shown.
pub open spec fn hidden_count_before(index: int, first_visible: int, visible_end: int) -> int {
    if index <= first_visible {
        index
    } else if index <= visible_end {
        first_visible
    } else {
        first_visible + (index - visible_end)
    }
}

/// The position of the `k`-th hidden tab.
pub open spec fn hidden_tab_index(k: int, first_visible: int, visible_end: int) -> int {
    if k < first_visible {
        k
    } else {
        k - first_visible + visible_end
    }
}

pub open spec fn overflow_label(index: int, name: Seq<char>) -> Seq<char> {
    decimal_digits((index + 1) as nat) + " "@ + name
}

/// The entries of the overflow popup: one per hidden tab, in tab order,
/// as long as overflow command ids remain.
pub fn tab_overflow_menu_items(
    tabs: &[(TabId, String)],
    first_visible_index: usize,
    visible_end_index: usize,
) -> (items: Vec<TabOverflowMenuItem>)
    requires
        first_visible_index <= visible_end_index,
    ensures
        ({
            let hidden = hidden_count_before(
                tabs@.len() as int,
                first_visible_index as int,
                visible_end_index as int,
            );
            let cap = CMD_TAB_OVERFLOW_END - CMD_TAB_OVERFLOW_BASE;
            &&& items@.len() == (if hidden < cap {
                hidden
            } else {
                cap
            })
            &&& forall|k: int|
                0 <= k < items@.len() ==> {
                    let index = hidden_tab_index(
                        k,
                        first_visible_index as int,
                        visible_end_index as int,
                    );
                    &&& 0 <= index < tabs@.len()
                    &&& (#[trigger] items@[k]).command == CMD_TAB_OVERFLOW_BASE + k
                    &&& items@[k].tab_id == tabs@[index].0
                    &&& items@[k].label@ == overflow_label(index, tabs@[index].1@)
                }
        }),
{
    let mut items: Vec<TabOverflowMenuItem> = Vec::new();
    let mut index: usize = 0;
    let mut k: usize = 0;
    let cap: usize = (CMD_TAB_OVERFLOW_END - CMD_TAB_OVERFLOW_BASE) as usize;
    while index < tabs.len() && k < cap
        invariant
            index <= tabs@.len(),
            first_visible_index <= visible_end_index,
            cap == CMD_TAB_OVERFLOW_END - CMD_TAB_OVERFLOW_BASE,
            k <= cap,
            k == hidden_count_before(index as int, first_visible_index as int, visible_end_index as int),
            items@.len() == k,
            forall|j: int|
                0 <= j < k ==> {
                    let at = hidden_tab_index(j, first_visible_index as int, visible_end_index as int);
                    &&& 0 <= at < index
                    &&& (#[trigger] items@[j]).command == CMD_TAB_OVERFLOW_BASE + j
                    &&& items@[j].tab_id == tabs@[at].0
                    &&& items@[j].label@ == overflow_label(at, tabs@[at].1@)
                },
        decreases tabs@.len() - index,
    {
        if first_visible_index <= index && index < visible_end_index {
            index += 1;
            continue;
        }
        let (tab_id, name) = &tabs[index];
        let mut label = String::new();
        push_decimal(&mut label, index as u64 + 1);
        push_str(&mut label, " ");
        push_str(&mut label, name.as_str());
        let command = CMD_TAB_OVERFLOW_BASE + k as u16;
        items.push(TabOverflowMenuItem { command, tab_id: *tab_id, label });
        k += 1;
        index += 1;
    }
    items
}

} // verus!
