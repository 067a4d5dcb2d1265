use vstd::prelude::*;

use crate::geometry::{intersection, max_i32, min_i32, UiRect};
use crate::ui_policy::{CMD_REGION_DELETE, CMD_SPLIT_HORIZONTAL, CMD_SPLIT_VERTICAL, CMD_UNDOCK};

verus! {

pub const TAB_BAR_HEIGHT: i32 = 34;

pub const COMMAND_BAR_HEIGHT: i32 = 36;

pub const STATUS_BAR_HEIGHT: i32 = 24;

pub const COMMAND_BUTTON_LEFT: i32 = 8;

pub const COMMAND_BUTTON_GAP: i32 = 6;

pub const COMMAND_BUTTON_RIGHT_MARGIN: i32 = 8;

/// How many command buttons the command bar holds.
pub const COMMAND_BUTTON_COUNT: usize = 4;

/// Height of the bar above the workspace: the tab strip, and below it the
/// command bar while the workspace controls are shown.
pub open spec fn spec_top_bar_height(workspace_ui_visible: bool) -> i32 {
    if workspace_ui_visible {
        (TAB_BAR_HEIGHT + COMMAND_BAR_HEIGHT) as i32
    } else {
        TAB_BAR_HEIGHT
    }
}

pub fn top_bar_height(workspace_ui_visible: bool) -> (h: i32)
    ensures
        h == spec_top_bar_height(workspace_ui_visible),
{
    if workspace_ui_visible {
        TAB_BAR_HEIGHT + COMMAND_BAR_HEIGHT
    } else {
        TAB_BAR_HEIGHT
    }
}

/// A command button: the command it sends and its width.
#[derive(Debug, Clone, Copy, PartialEq, Eq, Structural)]
pub struct ButtonSpec {
    pub command: u16,
    pub width: i32,
}

/// A command button placed in the client area.
#[derive(Debug, Clone, Copy, PartialEq, Eq, Structural)]
pub struct ButtonRect {
    pub command: u16,
    pub rect: UiRect,
}

pub open spec fn spec_button_spec(index: int) -> ButtonSpec {
    if index == 0 {
        ButtonSpec { command: CMD_SPLIT_VERTICAL, width: 112 }
    } else if index == 1 {
        ButtonSpec { command: CMD_SPLIT_HORIZONTAL, width: 128 }
    } else if index == 2 {
        ButtonSpec { command: CMD_REGION_DELETE, width: 112 }
    } else {
        ButtonSpec { command: CMD_UNDOCK, width: 88 }
    }
}

/// The command buttons, left to right.
pub fn button_spec(index: usize) -> (s: ButtonSpec)
    requires
        index < COMMAND_BUTTON_COUNT,
    ensures
        s == spec_button_spec(index as int),
{
    if index == 0 {
        ButtonSpec { command: CMD_SPLIT_VERTICAL, width: 112 }
    } else if index == 1 {
        ButtonSpec { command: CMD_SPLIT_HORIZONTAL, width: 128 }
    } else if index == 2 {
        ButtonSpec { command: CMD_REGION_DELETE, width: 112 }
    } else {
        ButtonSpec { command: CMD_UNDOCK, width: 88 }
    }
}

/// A client rectangle whose width and height are `i32` values and whose
/// bottom leaves room for the status bar above it.
pub open spec fn client_extent_fits(client: UiRect) -> bool {
    &&& i32::MIN <= client.right - client.left <= i32::MAX
    &&& i32::MIN <= client.bottom - client.top <= i32::MAX
    &&& client.bottom - STATUS_BAR_HEIGHT >= i32::MIN
}

pub open spec fn top_bar_rect(client: UiRect, workspace_ui_visible: bool) -> Option<UiRect> {
    intersection(
        UiRect {
            left: 0,
            top: 0,
            right: (client.right - client.left) as i32,
            bottom: spec_top_bar_height(workspace_ui_visible),
        },
        client,
    )
}

pub open spec fn tab_strip_rect(client: UiRect, workspace_ui_visible: bool) -> Option<UiRect> {
    intersection(
        UiRect {
            left: 0,
            top: 0,
            right: (client.right - client.left) as i32,
            bottom: min_i32(TAB_BAR_HEIGHT, spec_top_bar_height(workspace_ui_visible)),
        },
        client,
    )
}

pub open spec fn status_bar_rect(client: UiRect, workspace_ui_visible: bool) -> Option<UiRect> {
    if !workspace_ui_visible {
        None
    } else {
        intersection(
            UiRect {
                left: 0,
                top: (client.bottom - STATUS_BAR_HEIGHT) as i32,
                right: (client.right - client.left) as i32,
                bottom: client.bottom,
            },
            client,
        )
    }
}

/// The top-bar area of a client rectangle.
pub fn top_bar_rect_for_client(client: UiRect, workspace_ui_visible: bool) -> (r: Option<UiRect>)
    requires
        client_extent_fits(client),
    ensures
        r == top_bar_rect(client, workspace_ui_visible),
{
    UiRect::new(0, 0, client.width(), top_bar_height(workspace_ui_visible)).intersect(client)
}

/// The tab-strip area of a client rectangle.
pub fn tab_strip_rect_for_client(client: UiRect, workspace_ui_visible: bool) -> (r: Option<UiRect>)
    requires
        client_extent_fits(client),
    ensures
        r == tab_strip_rect(client, workspace_ui_visible),
{
    let top_height = top_bar_height(workspace_ui_visible);
    let height = if TAB_BAR_HEIGHT <= top_height {
        TAB_BAR_HEIGHT
    } else {
        top_height
    };
    UiRect::new(0, 0, client.width(), height).intersect(client)
}

/// The status-bar area of a client rectangle; there is none while the
/// workspace controls are hidden.
pub fn status_bar_rect_for_client(client: UiRect, workspace_ui_visible: bool) -> (r: Option<UiRect>)
    requires
        client_extent_fits(client),
    ensures
        r == status_bar_rect(client, workspace_ui_visible),
{
    if !workspace_ui_visible {
        return None;
    }
    UiRect::new(0, client.bottom - STATUS_BAR_HEIGHT, client.width(), client.bottom).intersect(
        client,
    )
}

/// Where the workspace body lies in the client area: below the top bar,
/// above the status bar, with a positive size.
#[derive(Debug, Clone, Copy, PartialEq, Eq, Structural)]
pub struct LayoutMetrics {
    pub content_top: i32,
    pub width: i32,
    pub height: i32,
}

pub open spec fn status_bar_height(workspace_ui_visible: bool) -> int {
    if workspace_ui_visible {
        STATUS_BAR_HEIGHT as int
    } else {
        0
    }
}

pub open spec fn layout_metrics_of(client: UiRect, workspace_ui_visible: bool) -> Option<
    LayoutMetrics,
> {
    let top = spec_top_bar_height(workspace_ui_visible);
    let width = client.right - client.left;
    let height = client.bottom - client.top - top - status_bar_height(workspace_ui_visible);
    if width > 0 && height > 0 {
        Some(LayoutMetrics { content_top: top, width: width as i32, height: height as i32 })
    } else {
        None
    }
}

/// The workspace body metrics of a client rectangle; `None` when no room
/// is left for it.
pub fn layout_metrics(client: UiRect, workspace_ui_visible: bool) -> (r: Option<LayoutMetrics>)
    requires
        client_extent_fits(client),
    ensures
        r == layout_metrics_of(client, workspace_ui_visible),
{
    let top = top_bar_height(workspace_ui_visible);
    let status: i64 = if workspace_ui_visible {
        STATUS_BAR_HEIGHT as i64
    } else {
        0
    };
    let width: i64 = client.right as i64 - client.left as i64;
    let height: i64 = client.bottom as i64 - client.top as i64 - top as i64 - status;
    if width > 0 && height > 0 {
        Some(LayoutMetrics { content_top: top, width: width as i32, height: height as i32 })
    } else {
        None
    }
}

pub open spec fn workspace_body_rect(client: UiRect, workspace_ui_visible: bool) -> Option<UiRect> {
    match layout_metrics_of(client, workspace_ui_visible) {
        None => None,
        Some(m) => intersection(
            UiRect {
                left: 0,
                top: m.content_top,
                right: m.width,
                bottom: (m.content_top + m.height) as i32,
            },
            client,
        ),
    }
}

/// The workspace body area of a client rectangle.
pub fn workspace_body_rect_for_client(client: UiRect, workspace_ui_visible: bool) -> (r: Option<
    UiRect,
>)
    requires
        client_extent_fits(client),
    ensures
        r == workspace_body_rect(client, workspace_ui_visible),
{
    let metrics = layout_metrics(client, workspace_ui_visible)?;
    UiRect::new(0, metrics.content_top, metrics.width, metrics.content_top + metrics.height).intersect(
        client,
    )
}

pub open spec fn command_button_top() -> i32 {
    (TAB_BAR_HEIGHT + 4) as i32
}

pub open spec fn command_button_bottom() -> i32 {
    (spec_top_bar_height(true) - 4) as i32
}

/// `client.right` less the right margin, saturating at `i32::MIN`.
pub open spec fn buttons_max_right(client: UiRect) -> int {
    if client.right - COMMAND_BUTTON_RIGHT_MARGIN < i32::MIN {
        i32::MIN as int
    } else {
        client.right - COMMAND_BUTTON_RIGHT_MARGIN
    }
}

/// The buttons from `index` on, the first of them starting at `left`:
/// each one is placed while it fits wholly left of `max_right`, and the
/// next one starts a gap further right.
pub open spec fn buttons_from(index: nat, left: int, max_right: int) -> Seq<ButtonRect>
    decreases COMMAND_BUTTON_COUNT - index,
{
    if index >= COMMAND_BUTTON_COUNT {
        Seq::empty()
    } else {
        let spec = spec_button_spec(index as int);
        let right = left + spec.width;
        if right > i32::MAX || right > max_right || right <= left {
            Seq::empty()
        } else {
            let button = ButtonRect {
                command: spec.command,
                rect: UiRect {
                    left: left as i32,
                    top: command_button_top(),
                    right: right as i32,
                    bottom: command_button_bottom(),
                },
            };
            if right + COMMAND_BUTTON_GAP > i32::MAX {
                seq![button]
            } else {
                seq![button] + buttons_from(index + 1, right + COMMAND_BUTTON_GAP, max_right)
            }
        }
    }
}

/// The command buttons of a client rectangle: only those that fit whole.
pub open spec fn command_buttons(client: UiRect) -> Seq<ButtonRect> {
    buttons_from(0, max_i32(COMMAND_BUTTON_LEFT, client.left) as int, buttons_max_right(client))
}

/// Places the command buttons left to right in the command bar, stopping
/// at the first one that would not fit whole.
pub fn command_button_rects(client: UiRect) -> (r: Vec<ButtonRect>)
    ensures
        r@ == command_buttons(client),
{
    let mut rects: Vec<ButtonRect> = Vec::new();
    let top = TAB_BAR_HEIGHT + 4;
    let bottom = top_bar_height(true) - 4;
    let max_right: i32 = if client.right >= i32::MIN + COMMAND_BUTTON_RIGHT_MARGIN {
        client.right - COMMAND_BUTTON_RIGHT_MARGIN
    } else {
        i32::MIN
    };
    let mut left: i32 = if COMMAND_BUTTON_LEFT >= client.left {
        COMMAND_BUTTON_LEFT
    } else {
        client.left
    };
    let mut index: usize = 0;
    proof {
        assert(rects@ + buttons_from(0, left as int, max_right as int) =~= command_buttons(client));
    }
    while index < COMMAND_BUTTON_COUNT
        invariant
            index <= COMMAND_BUTTON_COUNT,
            top == command_button_top(),
            bottom == command_button_bottom(),
            max_right == buttons_max_right(client),
            rects@ + buttons_from(index as nat, left as int, max_right as int) == command_buttons(
                client,
            ),
        ensures
            rects@ == command_buttons(client),
        decreases COMMAND_BUTTON_COUNT - index,
    {
        let spec = button_spec(index);
        let right = match left.checked_add(spec.width) {
            Some(right) => right,
            None => {
                assert(rects@ =~= rects@ + buttons_from(index as nat, left as int, max_right as int));
                break ;
            },
        };
        if right > max_right || right <= left {
            assert(rects@ =~= rects@ + buttons_from(index as nat, left as int, max_right as int));
            break ;
        }
        let button = ButtonRect { command: spec.command, rect: UiRect::new(left, top, right, bottom) };
        let ghost before = rects@;
        rects.push(button);
        match right.checked_add(COMMAND_BUTTON_GAP) {
            Some(next_left) => {
                assert(before + buttons_from(index as nat, left as int, max_right as int) =~= rects@
                    + buttons_from((index + 1) as nat, next_left as int, max_right as int));
                left = next_left;
            },
            None => {
                assert(before + buttons_from(index as nat, left as int, max_right as int)
                    =~= rects@);
                break ;
            },
        }
        index += 1;
    }
    if index >= COMMAND_BUTTON_COUNT {
        assert(rects@ =~= rects@ + buttons_from(index as nat, left as int, max_right as int));
    }
    rects
}

pub open spec fn rect_union(a: UiRect, b: UiRect) -> UiRect {
    UiRect {
        left: min_i32(a.left, b.left),
        top: min_i32(a.top, b.top),
        right: max_i32(a.right, b.right),
        bottom: max_i32(a.bottom, b.bottom),
    }
}

/// The smallest rectangle holding every button of a sequence.
pub open spec fn union_of_buttons(s: Seq<ButtonRect>) -> Option<UiRect>
    decreases s.len(),
{
    if s.len() == 0 {
        None
    } else {
        match union_of_buttons(s.drop_last()) {
            None => Some(s.last().rect),
            Some(bounds) => Some(rect_union(bounds, s.last().rect)),
        }
    }
}

/// The area the command buttons of a client rectangle cover.
pub fn command_buttons_rect_for_client(client: UiRect) -> (r: Option<UiRect>)
    ensures
        r == union_of_buttons(command_buttons(client)),
{
    let buttons = command_button_rects(client);
    let mut bounds: Option<UiRect> = None;
    let mut k: usize = 0;
    while k < buttons.len()
        invariant
            k <= buttons@.len(),
            bounds == union_of_buttons(buttons@.subrange(0, k as int)),
        decreases buttons@.len() - k,
    {
        let button = buttons[k];
        proof {
            let next = buttons@.subrange(0, k + 1 as int);
            assert(next.drop_last() =~= buttons@.subrange(0, k as int));
            assert(next.last() == button);
        }
        bounds = Some(
            match bounds {
                Some(existing) => existing.union(button.rect),
                None => button.rect,
            },
        );
        k += 1;
    }
    assert(buttons@.subrange(0, buttons@.len() as int) =~= buttons@);
    bounds
}

pub open spec fn first_button_rect(s: Seq<ButtonRect>, command: u16) -> Option<UiRect>
    decreases s.len(),
{
    if s.len() == 0 {
        None
    } else if s[0].command == command {
        Some(s[0].rect)
    } else {
        first_button_rect(s.drop_first(), command)
    }
}

/// The rectangle of the command button that sends `command`, while the
/// workspace controls are shown and the client rectangle is known.
pub fn button_rect_for_command(
    client: Option<UiRect>,
    workspace_ui_visible: bool,
    command: u16,
) -> (r: Option<UiRect>)
    ensures
        r == (match client {
            Some(c) => if workspace_ui_visible {
                first_button_rect(command_buttons(c), command)
            } else {
                None
            },
            None => None,
        }),
{
    if !workspace_ui_visible {
        return None;
    }
    let area = match client {
        Some(area) => area,
        None => {
            return None;
        },
    };
    let buttons = command_button_rects(area);
    let mut k: usize = 0;
    assert(buttons@.subrange(0, buttons@.len() as int) =~= buttons@);
    while k < buttons.len()
        invariant
            k <= buttons@.len(),
            workspace_ui_visible,
            client == Some(area),
            buttons@ == command_buttons(area),
            first_button_rect(buttons@, command) == first_button_rect(
                buttons@.subrange(k as int, buttons@.len() as int),
                command,
            ),
        decreases buttons@.len() - k,
    {
        let rest = Ghost(buttons@.subrange(k as int, buttons@.len() as int));
        assert(rest@[0] == buttons@[k as int]);
        if buttons[k].command == command {
            assert(first_button_rect(rest@, command) == Some(rest@[0].rect));
            return Some(buttons[k].rect);
        }
        assert(rest@.drop_first() =~= buttons@.subrange(k + 1 as int, buttons@.len() as int));
        k += 1;
    }
    None
}

pub open spec fn rects_overlap_spec(a: UiRect, b: UiRect) -> bool {
    intersection(a, b) is Some
}

pub fn rects_overlap(left: UiRect, right: UiRect) -> (b: bool)
    ensures
        b == rects_overlap_spec(left, right),
{
    left.intersect(right).is_some()
}

pub open spec fn optional_overlaps(rect: Option<UiRect>, dirty: UiRect) -> bool {
    match rect {
        Some(r) => rects_overlap_spec(r, dirty),
        None => false,
    }
}

pub fn optional_rect_overlaps(rect: Option<UiRect>, dirty: UiRect) -> (b: bool)
    ensures
        b == optional_overlaps(rect, dirty),
{
    match rect {
        Some(rect) => rects_overlap(rect, dirty),
        None => false,
    }
}

/// Which parts of the window a repaint of the `dirty` area has to draw.
#[derive(Debug, Clone, Copy, PartialEq, Eq, Structural)]
pub struct DirtyPaintSections {
    pub top_bar: bool,
    pub tab_strip: bool,
    pub command_buttons: bool,
    pub workspace_regions: bool,
    pub status_bar: bool,
}

impl DirtyPaintSections {
    /// A part is drawn when its area overlaps the dirty area; the command
    /// buttons, the regions and the status bar only while the workspace
    /// controls are shown.
    pub fn for_dirty(client: UiRect, dirty: UiRect, workspace_ui_visible: bool) -> (s: Self)
        requires
            client_extent_fits(client),
        ensures
            s.top_bar == optional_overlaps(top_bar_rect(client, workspace_ui_visible), dirty),
            s.tab_strip == optional_overlaps(tab_strip_rect(client, workspace_ui_visible), dirty),
            s.command_buttons == (workspace_ui_visible && optional_overlaps(
                union_of_buttons(command_buttons(client)),
                dirty,
            )),
            s.workspace_regions == (workspace_ui_visible && optional_overlaps(
                workspace_body_rect(client, workspace_ui_visible),
                dirty,
            )),
            s.status_bar == (workspace_ui_visible && optional_overlaps(
                status_bar_rect(client, workspace_ui_visible),
                dirty,
            )),
    {
        DirtyPaintSections {
            top_bar: optional_rect_overlaps(
                top_bar_rect_for_client(client, workspace_ui_visible),
                dirty,
            ),
            tab_strip: optional_rect_overlaps(
                tab_strip_rect_for_client(client, workspace_ui_visible),
                dirty,
            ),
            command_buttons: workspace_ui_visible && optional_rect_overlaps(
                command_buttons_rect_for_client(client),
                dirty,
            ),
            workspace_regions: workspace_ui_visible && optional_rect_overlaps(
                workspace_body_rect_for_client(client, workspace_ui_visible),
                dirty,
            ),
            status_bar: workspace_ui_visible && optional_rect_overlaps(
                status_bar_rect_for_client(client, workspace_ui_visible),
                dirty,
            ),
        }
    }
}

/// Every placed command button lies inside the command bar, within the
/// client's left edge and the right margin, and buttons do not overlap.
pub proof fn lemma_command_buttons_fit(client: UiRect)
    ensures
        forall|i: int|
            0 <= i < command_buttons(client).len() ==> {
                let b = #[trigger] command_buttons(client)[i];
                &&& client.left <= b.rect.left < b.rect.right
                &&& b.rect.right <= client.right - COMMAND_BUTTON_RIGHT_MARGIN
                &&& b.rect.top == command_button_top()
                &&& b.rect.bottom == command_button_bottom()
                &&& b.command == spec_button_spec(i).command
            },
        command_buttons(client).len() <= COMMAND_BUTTON_COUNT,
{
    lemma_buttons_from_fit(
        0,
        max_i32(COMMAND_BUTTON_LEFT, client.left) as int,
        buttons_max_right(client),
        client,
    );
}

proof fn lemma_buttons_from_fit(index: nat, left: int, max_right: int, client: UiRect)
    requires
        left >= client.left,
        max_right == buttons_max_right(client),
    ensures
        forall|i: int|
            0 <= i < buttons_from(index, left, max_right).len() ==> {
                let b = #[trigger] buttons_from(index, left, max_right)[i];
                &&& client.left <= b.rect.left < b.rect.right
                &&& b.rect.right <= client.right - COMMAND_BUTTON_RIGHT_MARGIN
                &&& b.rect.top == command_button_top()
                &&& b.rect.bottom == command_button_bottom()
                &&& b.command == spec_button_spec(index + i).command
            },
        buttons_from(index, left, max_right).len() + index <= COMMAND_BUTTON_COUNT || index
            >= COMMAND_BUTTON_COUNT,
    decreases COMMAND_BUTTON_COUNT - index,
{
    if index < COMMAND_BUTTON_COUNT {
        let spec = spec_button_spec(index as int);
        let right = left + spec.width;
        if !(right > i32::MAX || right > max_right || right <= left) && right + COMMAND_BUTTON_GAP
            <= i32::MAX {
            lemma_buttons_from_fit(index + 1, right + COMMAND_BUTTON_GAP, max_right, client);
            let rest = buttons_from(index + 1, right + COMMAND_BUTTON_GAP, max_right);
            let all = buttons_from(index, left, max_right);
            assert forall|i: int| 1 <= i < all.len() implies all[i] == rest[i - 1] by {}
        }
    }
}

} // verus!
