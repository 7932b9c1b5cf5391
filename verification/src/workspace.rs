//! The workspaces of a monitor as the window manager reports them, and how the row of
//! workspace buttons follows them.
use crate::decimal::{decimal, u64_to_decimal};
use crate::geometry::fits_i32;
use crate::text::string_of;
use crate::json::{json_get, json_get_opt, json_is_object, json_items, json_str, json_u64, Json};
use vstd::prelude::*;

verus! {

/// A workspace as shown: its name, whether it is focused, whether it is shown at all.
pub type WorkspaceState = (Option<String>, bool, bool);

/// A workspace by the characters of its name.
pub type WorkspaceView = (Option<Seq<char>>, bool, bool);

pub open spec fn name_view(name: Option<String>) -> Option<Seq<char>> {
    match name {
        Some(n) => Some(n@),
        None => None,
    }
}

pub open spec fn state_view(s: WorkspaceState) -> WorkspaceView {
    (name_view(s.0), s.1, s.2)
}

pub open spec fn states_view(v: Seq<WorkspaceState>) -> Seq<WorkspaceView> {
    v.map_values(|s: WorkspaceState| state_view(s))
}

/// Why the workspaces of a monitor could not be read from the window manager's state.
#[derive(Debug, Clone, Copy, PartialEq, Eq, Structural)]
pub enum WorkspaceError {
    MissingMonitors,
    InvalidMonitors,
    MissingMonitorElements,
    InvalidMonitorElements,
    MonitorNotFound,
    MissingWorkspaces,
    MissingWorkspaceElements,
    InvalidWorkspaceElements,
}

/// A non-empty array.
pub open spec fn non_empty_items(items: Option<Seq<Json>>) -> bool {
    match items {
        Some(s) => s.len() > 0,
        None => false,
    }
}

/// A workspace has content when it holds a container or a floating window.
pub open spec fn has_content(w: Json) -> bool {
    non_empty_items(json_items(json_get_opt(json_get(w, "containers"@), "elements"@)))
        || non_empty_items(json_items(json_get(w, "floating_windows"@)))
}

/// A workspace as read, before the focused one is marked.
pub open spec fn entry_view(w: Json) -> WorkspaceView {
    (json_str(json_get(w, "name"@)), false, has_content(w))
}

/// An object whose `id` is `monitor_id`.
pub open spec fn is_monitor(m: Json, monitor_id: u32) -> bool {
    json_is_object(Some(m)) && json_u64(json_get(m, "id"@)) == Some(monitor_id as u64)
}

/// The first monitor of `monitors` with the id `monitor_id`.
pub open spec fn find_monitor(monitors: Seq<Json>, monitor_id: u32) -> Option<Json>
    decreases monitors.len(),
{
    if monitors.len() == 0 {
        None
    } else if is_monitor(monitors[0], monitor_id) {
        Some(monitors[0])
    } else {
        find_monitor(monitors.drop_first(), monitor_id)
    }
}

/// The workspace at `focused`, if there is one, is marked focused and shown.
pub open spec fn mark_focused(v: Seq<WorkspaceView>, focused: Option<u64>) -> Seq<WorkspaceView> {
    match focused {
        Some(k) => if k < v.len() {
            v.update(k as int, (v[k as int].0, true, true))
        } else {
            v
        },
        None => v,
    }
}

/// The workspaces of the monitor `monitor_id` in the window manager's state `state`:
/// `state.monitors.elements` is searched for the first object whose `id` is
/// `monitor_id`; each item of its `workspaces.elements` gives a workspace named by its
/// `name`, shown when it has containers or floating windows; the workspace at
/// `workspaces.focused` is focused and shown.
pub open spec fn workspaces_of(state: Json, monitor_id: u32) -> Result<Seq<WorkspaceView>, WorkspaceError> {
    let monitors = json_get(state, "monitors"@);
    if monitors is None {
        Err(WorkspaceError::MissingMonitors)
    } else if !json_is_object(monitors) {
        Err(WorkspaceError::InvalidMonitors)
    } else {
        let elements = json_get_opt(monitors, "elements"@);
        if elements is None {
            Err(WorkspaceError::MissingMonitorElements)
        } else {
            match json_items(elements) {
                None => Err(WorkspaceError::InvalidMonitorElements),
                Some(items) => match find_monitor(items, monitor_id) {
                    None => Err(WorkspaceError::MonitorNotFound),
                    Some(monitor) => {
                        let workspaces = json_get(monitor, "workspaces"@);
                        if workspaces is None {
                            Err(WorkspaceError::MissingWorkspaces)
                        } else {
                            let ws_elements = json_get_opt(workspaces, "elements"@);
                            if ws_elements is None {
                                Err(WorkspaceError::MissingWorkspaceElements)
                            } else {
                                match json_items(ws_elements) {
                                    None => Err(WorkspaceError::InvalidWorkspaceElements),
                                    Some(ws) => Ok(
                                        mark_focused(
                                            ws.map_values(|w: Json| entry_view(w)),
                                            json_u64(json_get_opt(workspaces, "focused"@)),
                                        ),
                                    ),
                                }
                            }
                        }
                    },
                },
            }
        }
    }
}

fn non_empty_array(v: Option<&Json>) -> (b: bool)
    ensures
        b == non_empty_items(json_items(
            match v {
                Some(x) => Some(*x),
                None => None,
            },
        )),
{
    match v {
        Some(x) => match x.as_array() {
            Some(items) => items.len() > 0,
            None => false,
        },
        None => false,
    }
}

fn read_entry(w: &Json) -> (s: WorkspaceState)
    ensures
        state_view(s) == entry_view(*w),
{
    let name = match w.get("name") {
        Some(n) => match n.as_str() {
            Some(s) => Some(s.clone()),
            None => None,
        },
        None => None,
    };
    let containers = match w.get("containers") {
        Some(c) => c.get("elements"),
        None => None,
    };
    let has = non_empty_array(containers) || non_empty_array(w.get("floating_windows"));
    (name, false, has)
}

fn find_monitor_in(items: &Vec<Json>, monitor_id: u32) -> (r: Option<&Json>)
    ensures
        match find_monitor(items@, monitor_id) {
            Some(m) => r matches Some(x) && *x == m,
            None => r is None,
        },
{
    let mut i: usize = 0;
    assert(items@.skip(0) =~= items@);
    while i < items.len()
        invariant
            0 <= i <= items.len(),
            find_monitor(items@, monitor_id) == find_monitor(items@.skip(i as int), monitor_id),
        decreases items.len() - i,
    {
        assert(items@.skip(i as int)[0] == items@[i as int]);
        let m = &items[i];
        let matches = m.is_object() && match m.get("id") {
            Some(id) => match id.as_u64() {
                Some(n) => n == monitor_id as u64,
                None => false,
            },
            None => false,
        };
        if matches {
            return Some(m);
        }
        assert(items@.skip(i as int).drop_first() =~= items@.skip(i + 1));
        i = i + 1;
    }
    None
}

/// The workspaces of the monitor `monitor_id` in the window manager's state.
pub fn get_workspaces(state: &Json, monitor_id: u32) -> (r: Result<Vec<WorkspaceState>, WorkspaceError>)
    ensures
        match workspaces_of(*state, monitor_id) {
            Ok(v) => r matches Ok(w) && states_view(w@) == v,
            Err(e) => r == Err::<Vec<WorkspaceState>, WorkspaceError>(e),
        },
{
    let monitors = match state.get("monitors") {
        Some(m) => m,
        None => return Err(WorkspaceError::MissingMonitors),
    };
    if !monitors.is_object() {
        return Err(WorkspaceError::InvalidMonitors);
    }
    let elements = match monitors.get("elements") {
        Some(e) => e,
        None => return Err(WorkspaceError::MissingMonitorElements),
    };
    let items = match elements.as_array() {
        Some(items) => items,
        None => return Err(WorkspaceError::InvalidMonitorElements),
    };
    let monitor = match find_monitor_in(items, monitor_id) {
        Some(m) => m,
        None => return Err(WorkspaceError::MonitorNotFound),
    };
    let workspaces = match monitor.get("workspaces") {
        Some(w) => w,
        None => return Err(WorkspaceError::MissingWorkspaces),
    };
    let ws_elements = match workspaces.get("elements") {
        Some(e) => e,
        None => return Err(WorkspaceError::MissingWorkspaceElements),
    };
    let ws = match ws_elements.as_array() {
        Some(ws) => ws,
        None => return Err(WorkspaceError::InvalidWorkspaceElements),
    };
    let ghost entries = ws@.map_values(|w: Json| entry_view(w));
    let mut out: Vec<WorkspaceState> = Vec::new();
    let mut i: usize = 0;
    while i < ws.len()
        invariant
            0 <= i <= ws.len(),
            entries == ws@.map_values(|w: Json| entry_view(w)),
            states_view(out@) == entries.take(i as int),
        decreases ws.len() - i,
    {
        let ghost before = out@;
        let s = read_entry(&ws[i]);
        out.push(s);
        assert(states_view(out@) =~= states_view(before).push(state_view(s)));
        assert(entries.take(i + 1) =~= entries.take(i as int).push(entries[i as int]));
        i = i + 1;
    }
    assert(entries.take(ws.len() as int) =~= entries);
    let focused = match workspaces.get("focused") {
        Some(f) => f.as_u64(),
        None => None,
    };
    if let Some(k) = focused {
        if k < out.len() as u64 {
            let idx = k as usize;
            let ghost before = out@;
            let name = out[idx].0.clone();
            out.set(idx, (name, true, true));
            assert(states_view(out@) =~= states_view(before).update(
                idx as int,
                (states_view(before)[idx as int].0, true, true),
            ));
        }
    }
    Ok(out)
}

/// Gives each workspace the name that its name template rendered to, where it rendered;
/// a workspace whose template failed keeps its name.
pub fn format_workspace_names(workspaces: Vec<WorkspaceState>, rendered: Vec<Option<String>>) -> (r: Vec<WorkspaceState>)
    requires
        rendered.len() == workspaces.len(),
    ensures
        r.len() == workspaces.len(),
        forall|i: int|
            0 <= i < r.len() ==> #[trigger] state_view(r@[i]) == (match rendered@[i] {
                Some(n) => Some(n@),
                None => name_view(workspaces@[i].0),
            }, workspaces@[i].1, workspaces@[i].2),
{
    let mut r: Vec<WorkspaceState> = Vec::new();
    let mut i: usize = 0;
    while i < workspaces.len()
        invariant
            0 <= i <= workspaces.len(),
            rendered.len() == workspaces.len(),
            r.len() == i,
            forall|k: int|
                0 <= k < i ==> #[trigger] state_view(r@[k]) == (match rendered@[k] {
                    Some(n) => Some(n@),
                    None => name_view(workspaces@[k].0),
                }, workspaces@[k].1, workspaces@[k].2),
        decreases workspaces.len() - i,
    {
        let name = match &rendered[i] {
            Some(n) => Some(n.clone()),
            None => workspaces[i].0.clone(),
        };
        r.push((name, workspaces[i].1, workspaces[i].2));
        i = i + 1;
    }
    r
}

/// The label of the workspace button at `index`: the workspace's name, else its
/// one-based position.
pub open spec fn label_of(name: Option<Seq<char>>, index: nat) -> Seq<char> {
    match name {
        Some(n) => n,
        None => decimal(index + 1),
    }
}

/// The label of the workspace button at `index`.
pub fn workspace_label(name: &Option<String>, index: usize) -> (label: String)
    requires
        index < u64::MAX,
    ensures
        label@ == label_of(name_view(*name), index as nat),
{
    match name {
        Some(n) => n.clone(),
        None => u64_to_decimal(index as u64 + 1),
    }
}

/// A workspace that is shown or focused.
pub open spec fn is_present(w: WorkspaceView) -> bool {
    w.1 || w.2
}

/// The first workspace that is shown or focused.
pub fn first_visible_or_focused(workspaces: &Vec<WorkspaceState>) -> (r: Option<usize>)
    ensures
        match r {
            Some(i) => i < workspaces.len() && is_present(state_view(workspaces@[i as int])) && forall|
                k: int,
            | 0 <= k < i ==> !is_present(#[trigger] state_view(workspaces@[k])),
            None => forall|k: int|
                0 <= k < workspaces.len() ==> !is_present(#[trigger] state_view(workspaces@[k])),
        },
{
    let mut i: usize = 0;
    while i < workspaces.len()
        invariant
            0 <= i <= workspaces.len(),
            forall|k: int| 0 <= k < i ==> !is_present(#[trigger] state_view(workspaces@[k])),
        decreases workspaces.len() - i,
    {
        if workspaces[i].1 || workspaces[i].2 {
            return Some(i);
        }
        i = i + 1;
    }
    None
}

/// The last workspace that is shown or focused.
pub fn last_visible_or_focused(workspaces: &Vec<WorkspaceState>) -> (r: Option<usize>)
    ensures
        match r {
            Some(i) => i < workspaces.len() && is_present(state_view(workspaces@[i as int])) && forall|
                k: int,
            | i < k < workspaces.len() ==> !is_present(#[trigger] state_view(workspaces@[k])),
            None => forall|k: int|
                0 <= k < workspaces.len() ==> !is_present(#[trigger] state_view(workspaces@[k])),
        },
{
    let mut i: usize = workspaces.len();
    while i > 0
        invariant
            0 <= i <= workspaces.len(),
            forall|k: int| i <= k < workspaces.len() ==> !is_present(#[trigger] state_view(workspaces@[k])),
        decreases i,
    {
        if workspaces[i - 1].1 || workspaces[i - 1].2 {
            return Some(i - 1);
        }
        i = i - 1;
    }
    None
}

/// `i` is the first workspace that is shown or focused.
pub open spec fn is_first_present(ws: Seq<WorkspaceState>, i: int) -> bool {
    &&& 0 <= i < ws.len()
    &&& is_present(state_view(ws[i]))
    &&& forall|k: int| 0 <= k < i ==> !is_present(#[trigger] state_view(ws[k]))
}

/// `i` is the last workspace that is shown or focused.
pub open spec fn is_last_present(ws: Seq<WorkspaceState>, i: int) -> bool {
    &&& 0 <= i < ws.len()
    &&& is_present(state_view(ws[i]))
    &&& forall|k: int| i < k < ws.len() ==> !is_present(#[trigger] state_view(ws[k]))
}

/// `j` is the nearest button before `index` that is shown.
pub open spec fn is_previous_visible(visible: Seq<bool>, index: int, j: int) -> bool {
    &&& 0 <= j < index
    &&& visible[j]
    &&& forall|k: int| j < k < index ==> !#[trigger] visible[k]
}

/// The nearest button before `index` that is shown.
pub fn previous_visible(visible: &Vec<bool>, index: usize) -> (r: Option<usize>)
    requires
        index <= visible.len(),
    ensures
        match r {
            Some(j) => is_previous_visible(visible@, index as int, j as int),
            None => forall|k: int| 0 <= k < index ==> !#[trigger] visible@[k],
        },
{
    let mut i: usize = index;
    while i > 0
        invariant
            i <= index <= visible.len(),
            forall|k: int| i <= k < index ==> !#[trigger] visible@[k],
        decreases i,
    {
        if visible[i - 1] {
            return Some(i - 1);
        }
        i = i - 1;
    }
    None
}

/// How one button is tied into the row: to the row's left edge, to the right of an earlier
/// button, and to the row's right edge.
#[derive(Debug, Clone, Copy, PartialEq, Eq, Structural)]
pub struct ChildConstraints {
    pub pin_left: bool,
    pub after: Option<usize>,
    pub pin_right: bool,
}

/// The nearest button before `index` that is shown, searching backwards.
pub open spec fn previous_visible_of(visible: Seq<bool>, index: int) -> Option<int>
    decreases index,
{
    if index <= 0 {
        None
    } else if visible[index - 1] {
        Some(index - 1)
    } else {
        previous_visible_of(visible, index - 1)
    }
}

/// How the button at `index` is tied into the row.
pub open spec fn constraints_of(ws: Seq<WorkspaceState>, visible: Seq<bool>, index: int) -> ChildConstraints {
    ChildConstraints {
        pin_left: is_first_present(ws, index),
        after: if index == 0 {
            None
        } else {
            match previous_visible_of(visible, index) {
                Some(j) => Some(j as usize),
                None => None,
            }
        },
        pin_right: is_last_present(ws, index),
    }
}

proof fn lemma_previous_visible_some(visible: Seq<bool>, index: int, j: int)
    requires
        index <= visible.len(),
        is_previous_visible(visible, index, j),
    ensures
        previous_visible_of(visible, index) == Some(j),
    decreases index,
{
    if index - 1 != j {
        assert(!visible[index - 1]);
        lemma_previous_visible_some(visible, index - 1, j);
    }
}

proof fn lemma_previous_visible_none(visible: Seq<bool>, index: int)
    requires
        0 <= index <= visible.len(),
        forall|k: int| 0 <= k < index ==> !#[trigger] visible[k],
    ensures
        previous_visible_of(visible, index) is None,
    decreases index,
{
    if index > 0 {
        assert(!visible[index - 1]);
        lemma_previous_visible_none(visible, index - 1);
    }
}

/// The button of the first shown or focused workspace is tied to the left edge and that of
/// the last to the right edge; every other button but the first follows the nearest shown
/// button before it.
pub fn child_constraints(workspaces: &Vec<WorkspaceState>, visible: &Vec<bool>, index: usize) -> (c: ChildConstraints)
    requires
        index <= visible.len(),
    ensures
        c.pin_left == is_first_present(workspaces@, index as int),
        c.pin_right == is_last_present(workspaces@, index as int),
        match c.after {
            Some(j) => index != 0 && is_previous_visible(visible@, index as int, j as int),
            None => index == 0 || forall|k: int| 0 <= k < index ==> !#[trigger] visible@[k],
        },
        c == constraints_of(workspaces@, visible@, index as int),
{
    let first = first_visible_or_focused(workspaces);
    let last = last_visible_or_focused(workspaces);
    let pin_left = match first {
        Some(f) => f == index,
        None => false,
    };
    let pin_right = match last {
        Some(l) => l == index,
        None => false,
    };
    let after = if index != 0 {
        previous_visible(visible, index)
    } else {
        None
    };
    proof {
        if index != 0 {
            match after {
                Some(j) => lemma_previous_visible_some(visible@, index as int, j as int),
                None => lemma_previous_visible_none(visible@, index as int),
            }
        }
    }
    ChildConstraints { pin_left, after, pin_right }
}

/// The size of a workspace button, in pixels.
#[derive(Debug, Clone, Copy, PartialEq, Eq, Structural)]
pub struct ItemSize {
    pub width: i32,
    pub height: i32,
}

/// A script's request on the size of the workspace buttons.
#[derive(Debug, Clone, Copy, PartialEq, Eq, Structural)]
pub enum ItemSizeHook {
    GetItemHeight,
    SetItemHeight(u32),
    GetItemWidth,
    SetItemWidth(u32),
}

impl ItemSize {
    /// The configured size; each side is 16 pixels where none is configured.
    pub fn from_props(item_width: Option<u32>, item_height: Option<u32>) -> (s: ItemSize)
        ensures
            s.width == (match item_width {
                Some(w) => w as i32,
                None => 16,
            }),
            s.height == (match item_height {
                Some(h) => h as i32,
                None => 16,
            }),
    {
        let width: u32 = match item_width {
            Some(w) => w,
            None => 16,
        };
        let height: u32 = match item_height {
            Some(h) => h,
            None => 16,
        };
        ItemSize { width: width as i32, height: height as i32 }
    }

    /// Answers a request: a read gives back a number, a write changes the size and gives
    /// nothing. Both the height and the width requests read and write the width: the
    /// height stays as configured.
    pub fn apply(&mut self, hook: ItemSizeHook) -> (answer: Option<u32>)
        ensures
            match hook {
                ItemSizeHook::GetItemHeight | ItemSizeHook::GetItemWidth => answer == Some(
                    old(self).width as u32,
                ) && *final(self) == *old(self),
                ItemSizeHook::SetItemHeight(v) | ItemSizeHook::SetItemWidth(v) => answer is None
                    && *final(self) == (ItemSize { width: v as i32, height: old(self).height }),
            },
    {
        match hook {
            ItemSizeHook::GetItemHeight | ItemSizeHook::GetItemWidth => Some(self.width as u32),
            ItemSizeHook::SetItemHeight(v) | ItemSizeHook::SetItemWidth(v) => {
                self.width = v as i32;
                None
            },
        }
    }
}

/// The distance kept between the row's edge and its outermost button: the larger of the
/// row's padding and the button's margin on that side.
pub fn edge_gap(padding: i16, margin: i16) -> (gap: i16)
    ensures
        gap == (if padding >= margin { padding } else { margin }),
{
    if padding >= margin {
        padding
    } else {
        margin
    }
}

/// One layout tie of a workspace button.
#[derive(Debug, Clone, Copy, PartialEq, Eq, Structural)]
pub enum Tie {
    /// The button's left side sits `gap` pixels right of the row's left side.
    LeftToRow { gap: i16 },
    /// The button's left side sits at the right side of the button at `index`.
    AfterButton { index: usize },
    /// The row's right side sits `gap` pixels right of the button's right side.
    RightToRow { gap: i16 },
}

/// The ties of a button, in the order they are added to the layout.
pub open spec fn ties_of(c: ChildConstraints, left_gap: i16, right_gap: i16) -> Seq<Tie> {
    (if c.pin_left {
        seq![Tie::LeftToRow { gap: left_gap }]
    } else {
        Seq::empty()
    }) + (match c.after {
        Some(j) => seq![Tie::AfterButton { index: j }],
        None => Seq::empty(),
    }) + (if c.pin_right {
        seq![Tie::RightToRow { gap: right_gap }]
    } else {
        Seq::empty()
    })
}

/// The ties that place a button as `c` says, with the given edge gaps.
pub fn button_ties(c: ChildConstraints, left_gap: i16, right_gap: i16) -> (ties: Vec<Tie>)
    ensures
        ties@ == ties_of(c, left_gap, right_gap),
{
    let mut ties: Vec<Tie> = Vec::new();
    if c.pin_left {
        ties.push(Tie::LeftToRow { gap: left_gap });
    }
    if let Some(j) = c.after {
        ties.push(Tie::AfterButton { index: j });
    }
    if c.pin_right {
        ties.push(Tie::RightToRow { gap: right_gap });
    }
    assert(ties@ =~= ties_of(c, left_gap, right_gap));
    ties
}

/// The ties that are in the layout for each button, by the button's index.
pub struct TieBook {
    pub entries: Vec<Vec<Tie>>,
}

/// The ties of each button, by index.
pub open spec fn book_view(entries: Seq<Vec<Tie>>) -> Seq<Seq<Tie>> {
    entries.map_values(|v: Vec<Tie>| v@)
}

impl TieBook {
    /// No ties recorded.
    pub fn new() -> (b: TieBook)
        ensures
            b.entries@.len() == 0,
    {
        TieBook { entries: Vec::new() }
    }

    /// Records `ties` as the ties of the button at `index` and gives back the ties it had
    /// before (none for a button not seen yet): those are taken out of the layout, the new
    /// ones put in. The ties of every other button stay.
    pub fn replace(&mut self, index: usize, ties: Vec<Tie>) -> (removed: Vec<Tie>)
        requires
            index < usize::MAX,
        ensures
            removed@ == (if index < old(self).entries.len() {
                old(self).entries@[index as int]@
            } else {
                Seq::empty()
            }),
            final(self).entries.len() == (if index < old(self).entries.len() {
                old(self).entries.len() as int
            } else {
                index + 1
            }),
            book_view(final(self).entries@)[index as int] == ties@,
            forall|k: int|
                0 <= k < final(self).entries.len() && k != index ==> #[trigger] book_view(
                    final(self).entries@,
                )[k] == (if k < old(self).entries.len() {
                    old(self).entries@[k]@
                } else {
                    Seq::<Tie>::empty()
                }),
    {
        let ghost before = self.entries@;
        while self.entries.len() <= index
            invariant
                index < usize::MAX,
                before.len() <= self.entries.len() <= (if index < before.len() {
                    before.len() as int
                } else {
                    index + 1
                }),
                forall|k: int| 0 <= k < before.len() ==> #[trigger] self.entries@[k] == before[k],
                forall|k: int|
                    before.len() <= k < self.entries.len() ==> (#[trigger] self.entries@[k])@
                        == Seq::<Tie>::empty(),
            decreases index + 1 - self.entries.len(),
        {
            self.entries.push(Vec::new());
        }
        let ghost mid = self.entries@;
        self.entries.push(ties);
        let removed = self.entries.swap_remove(index);
        assert forall|k: int|
            0 <= k < self.entries.len() && k != index implies #[trigger] book_view(self.entries@)[k]
            == (if k < before.len() {
                before[k]@
            } else {
                Seq::<Tie>::empty()
            }) by {
            assert(self.entries@[k] == mid[k]);
        }
        removed
    }
}

/// The larger of a padding and a margin.
pub open spec fn edge_gap_of(padding: i16, margin: i16) -> i16 {
    if padding >= margin {
        padding
    } else {
        margin
    }
}

/// The ties the button at `i` gets in a pass: those `constraints_of` says, with the gaps
/// between the row's padding and the button's margins (left, right).
pub open spec fn expected_ties(
    ws: Seq<WorkspaceState>,
    visible: Seq<bool>,
    margins: Seq<(i16, i16)>,
    padding: (i16, i16),
    i: int,
) -> Seq<Tie> {
    ties_of(
        constraints_of(ws, visible, i),
        edge_gap_of(padding.0, margins[i].0),
        edge_gap_of(padding.1, margins[i].1),
    )
}

/// What a pass over the row's layout hands back: for each button, the ties to take out of
/// the layout, and the size the button asks for.
pub struct TiePass {
    pub removed: Vec<Vec<Tie>>,
    pub sizes: Vec<(i32, i32)>,
}

/// Ties every button of a row (after its buttons were brought in line with the
/// workspaces) into the layout. `visible` says which buttons are shown and `margins` gives
/// each button's left and right margin; `padding` is the row's left and right padding.
/// Each button's entry of `book` becomes its new ties, its old ties come back for removal,
/// and each button asks for the item width plus its margins by the item height. Entries
/// of buttons past the row stay.
pub fn tie_pass(
    workspaces: &Vec<WorkspaceState>,
    visible: &Vec<bool>,
    margins: &Vec<(i16, i16)>,
    padding: (i16, i16),
    item: ItemSize,
    book: &mut TieBook,
) -> (pass: TiePass)
    requires
        margins.len() == visible.len(),
        visible.len() < usize::MAX,
        forall|i: int|
            0 <= i < margins.len() ==> fits_i32(item.width + (#[trigger] margins@[i]).0) && fits_i32(
                item.width + margins@[i].0 + margins@[i].1,
            ),
    ensures
        final(book).entries.len() == (if visible.len() <= old(book).entries.len() {
            old(book).entries.len() as int
        } else {
            visible.len() as int
        }),
        forall|i: int|
            0 <= i < visible.len() ==> #[trigger] book_view(final(book).entries@)[i] == expected_ties(
                workspaces@,
                visible@,
                margins@,
                padding,
                i,
            ),
        forall|k: int|
            visible.len() <= k < old(book).entries.len() ==> #[trigger] book_view(final(book).entries@)[k]
                == old(book).entries@[k]@,
        pass.removed.len() == visible.len(),
        forall|i: int|
            0 <= i < visible.len() ==> (#[trigger] pass.removed@[i])@ == (if i < old(book).entries.len() {
                old(book).entries@[i]@
            } else {
                Seq::<Tie>::empty()
            }),
        pass.sizes.len() == visible.len(),
        forall|i: int|
            0 <= i < visible.len() ==> #[trigger] pass.sizes@[i] == ((item.width + margins@[i].0
                + margins@[i].1) as i32, item.height),
{
    let ghost old_entries = book.entries@;
    let mut removed: Vec<Vec<Tie>> = Vec::new();
    let mut sizes: Vec<(i32, i32)> = Vec::new();
    let mut i: usize = 0;
    while i < visible.len()
        invariant
            0 <= i <= visible.len(),
            margins.len() == visible.len(),
            visible.len() < usize::MAX,
            forall|j: int|
                0 <= j < margins.len() ==> fits_i32(item.width + (#[trigger] margins@[j]).0) && fits_i32(
                    item.width + margins@[j].0 + margins@[j].1,
                ),
            book.entries.len() == (if i <= old_entries.len() {
                old_entries.len() as int
            } else {
                i as int
            }),
            forall|k: int|
                0 <= k < i ==> #[trigger] book_view(book.entries@)[k] == expected_ties(
                    workspaces@,
                    visible@,
                    margins@,
                    padding,
                    k,
                ),
            forall|k: int| i <= k < old_entries.len() ==> (#[trigger] book.entries@[k])@ == old_entries[k]@,
            removed.len() == i,
            forall|k: int|
                0 <= k < i ==> (#[trigger] removed@[k])@ == (if k < old_entries.len() {
                    old_entries[k]@
                } else {
                    Seq::<Tie>::empty()
                }),
            sizes.len() == i,
            forall|k: int|
                0 <= k < i ==> #[trigger] sizes@[k] == ((item.width + margins@[k].0 + margins@[k].1) as i32,
                    item.height),
        decreases visible.len() - i,
    {
        let c = child_constraints(workspaces, visible, i);
        let (margin_left, margin_right) = margins[i];
        let left = edge_gap(padding.0, margin_left);
        let right = edge_gap(padding.1, margin_right);
        let ties = button_ties(c, left, right);
        let ghost before = book.entries@;
        let old_ties = book.replace(i, ties);
        proof {
            assert forall|k: int| 0 <= k < i + 1 implies #[trigger] book_view(book.entries@)[k]
                == expected_ties(workspaces@, visible@, margins@, padding, k) by {
                if k < i {
                    assert(book_view(book.entries@)[k] == before[k]@);
                    assert(book_view(before)[k] == before[k]@);
                }
            }
            assert forall|k: int| i + 1 <= k < old_entries.len() implies (#[trigger] book.entries@[k])@
                == old_entries[k]@ by {
                assert(book_view(book.entries@)[k] == before[k]@);
            }
        }
        removed.push(old_ties);
        assert(fits_i32(item.width + margins@[i as int].0));
        assert(fits_i32(item.width + margins@[i as int].0 + margins@[i as int].1));
        let width: i32 = item.width + margin_left as i32 + margin_right as i32;
        sizes.push((width, item.height));
        i = i + 1;
    }
    TiePass { removed, sizes }
}

/// What selecting the workspace button at an index asks of the window manager.
#[derive(Debug, Clone, Copy, PartialEq, Eq, Structural)]
pub enum FocusDecision {
    /// That workspace is focused already.
    AlreadyFocused,
    /// Focus the workspace at this index.
    Focus(usize),
    /// No workspace is focused, which the window manager should never report.
    NoneFocused,
}

/// Selecting the button at `requested` focuses that workspace unless it is the first
/// focused one already.
pub fn focus_decision(workspaces: &Vec<WorkspaceState>, requested: usize) -> (d: FocusDecision)
    ensures
        match d {
            FocusDecision::AlreadyFocused => requested < workspaces.len() && workspaces@[requested as int].1
                && forall|k: int| 0 <= k < requested ==> !(#[trigger] workspaces@[k]).1,
            FocusDecision::Focus(i) => i == requested && exists|j: int|
                0 <= j < workspaces.len() && j != requested && (#[trigger] workspaces@[j]).1 && forall|
                    k: int,
                | 0 <= k < j ==> !(#[trigger] workspaces@[k]).1,
            FocusDecision::NoneFocused => forall|k: int|
                0 <= k < workspaces.len() ==> !(#[trigger] workspaces@[k]).1,
        },
{
    let mut i: usize = 0;
    while i < workspaces.len()
        invariant
            0 <= i <= workspaces.len(),
            forall|k: int| 0 <= k < i ==> !(#[trigger] workspaces@[k]).1,
        decreases workspaces.len() - i,
    {
        if workspaces[i].1 {
            if i != requested {
                assert(workspaces@[i as int].1);
                return FocusDecision::Focus(requested);
            } else {
                return FocusDecision::AlreadyFocused;
            }
        }
        i = i + 1;
    }
    FocusDecision::NoneFocused
}

/// A step of bringing the row of workspace buttons in line with the workspaces.
#[derive(Debug)]
pub enum ChildAction {
    /// Relabel the button at `index`, show or hide it, select or unselect it.
    Update { index: usize, label: String, visible: bool, selected: bool },
    /// Remove the button at `index`; the buttons after it move one place forward.
    Remove { index: usize },
    /// Add a button at the end (at `index`), shown when its workspace is shown or focused,
    /// selected when it is focused, with the CSS class `class`.
    Append { index: usize, label: String, visible: bool, selected: bool, class: String },
}

/// A step by the characters of its label.
pub enum ChildActionView {
    Update { index: nat, label: Seq<char>, visible: bool, selected: bool },
    Remove { index: nat },
    Append { index: nat, label: Seq<char>, visible: bool, selected: bool, class: Seq<char> },
}

pub open spec fn action_view(a: ChildAction) -> ChildActionView {
    match a {
        ChildAction::Update { index, label, visible, selected } => ChildActionView::Update {
            index: index as nat,
            label: label@,
            visible,
            selected,
        },
        ChildAction::Remove { index } => ChildActionView::Remove { index: index as nat },
        ChildAction::Append { index, label, visible, selected, class } => ChildActionView::Append {
            index: index as nat,
            label: label@,
            visible,
            selected,
            class: class@,
        },
    }
}

pub open spec fn min_nat(a: nat, b: nat) -> nat {
    if a <= b {
        a
    } else {
        b
    }
}

/// One pass over a row of `children` buttons for the workspaces `ws`, index by index:
/// a button with a workspace is relabelled, shown when its workspace is shown or
/// focused, and selected when it is focused; a workspace without a button gets one
/// appended, shown and selected in the same way and given the class `workspacechild`; a button without a workspace is removed, after which the next index skips
/// the button that moved into its place, so that `(children - ws.len() + 1) / 2` of the
/// surplus buttons go in one pass.
pub open spec fn plan_children(children: nat, ws: Seq<WorkspaceView>) -> Seq<ChildActionView> {
    let m = ws.len();
    let updates = Seq::new(
        min_nat(children, m),
        |i: int|
            ChildActionView::Update {
                index: i as nat,
                label: label_of(ws[i].0, i as nat),
                visible: ws[i].1 || ws[i].2,
                selected: ws[i].1,
            },
    );
    if children <= m {
        updates + Seq::new(
            (m - children) as nat,
            |k: int|
                ChildActionView::Append {
                    index: (children + k) as nat,
                    label: label_of(ws[children + k].0, (children + k) as nat),
                    visible: ws[children + k].1 || ws[children + k].2,
                    selected: ws[children + k].1,
                    class: "workspacechild"@,
                },
        )
    } else {
        updates + Seq::new(
            ((children - m + 1) / 2) as nat,
            |k: int| ChildActionView::Remove { index: (m + k) as nat },
        )
    }
}

fn update_action(w: &WorkspaceState, index: usize) -> (a: ChildAction)
    requires
        index < u64::MAX,
    ensures
        action_view(a) == (ChildActionView::Update {
            index: index as nat,
            label: label_of(name_view(w.0), index as nat),
            visible: w.1 || w.2,
            selected: w.1,
        }),
{
    let label = workspace_label(&w.0, index);
    if w.1 {
        ChildAction::Update { index, label, visible: true, selected: true }
    } else {
        ChildAction::Update { index, label, visible: w.2, selected: false }
    }
}

/// The steps of one pass over a row of `children` buttons for the workspaces `workspaces`.
pub fn plan_workspace_children(children: usize, workspaces: &Vec<WorkspaceState>) -> (plan: Vec<ChildAction>)
    ensures
        plan@.map_values(|a: ChildAction| action_view(a)) == plan_children(
            children as nat,
            states_view(workspaces@),
        ),
{
    let ghost ws = states_view(workspaces@);
    let ghost target = plan_children(children as nat, ws);
    let m = workspaces.len();
    let k = if children <= m {
        children
    } else {
        m
    };
    let mut plan: Vec<ChildAction> = Vec::new();
    let mut i: usize = 0;
    while i < k
        invariant
            0 <= i <= k,
            k == min_nat(children as nat, m as nat),
            m == workspaces.len(),
            ws == states_view(workspaces@),
            target == plan_children(children as nat, ws),
            plan@.map_values(|a: ChildAction| action_view(a)) == target.take(i as int),
        decreases k - i,
    {
        let ghost before = plan@;
        let a = update_action(&workspaces[i], i);
        plan.push(a);
        assert(plan@.map_values(|a: ChildAction| action_view(a)) =~= before.map_values(
            |a: ChildAction| action_view(a),
        ).push(action_view(a)));
        assert(target.take(i + 1) =~= target.take(i as int).push(target[i as int]));
        i = i + 1;
    }
    if children <= m {
        let mut j: usize = children;
        while j < m
            invariant
                children <= j <= m,
                m == workspaces.len(),
                ws == states_view(workspaces@),
                target == plan_children(children as nat, ws),
                plan@.map_values(|a: ChildAction| action_view(a)) == target.take(j as int),
            decreases m - j,
        {
            let ghost before = plan@;
            let label = workspace_label(&workspaces[j].0, j);
            let a = ChildAction::Append {
                index: j,
                label,
                visible: workspaces[j].1 || workspaces[j].2,
                selected: workspaces[j].1,
                class: string_of("workspacechild"),
            };
            plan.push(a);
            assert(plan@.map_values(|a: ChildAction| action_view(a)) =~= before.map_values(
                |a: ChildAction| action_view(a),
            ).push(action_view(a)));
            assert(target.take(j + 1) =~= target.take(j as int).push(target[j as int]));
            j = j + 1;
        }
        assert(target.take(m as int) =~= target);
    } else {
        let surplus = children - m;
        let removals = surplus / 2 + surplus % 2;
        let mut j: usize = 0;
        while j < removals
            invariant
                0 <= j <= removals,
                removals == (children - m + 1) / 2,
                m < children,
                m == workspaces.len(),
                ws == states_view(workspaces@),
                target == plan_children(children as nat, ws),
                plan@.map_values(|a: ChildAction| action_view(a)) == target.take(m + j),
            decreases removals - j,
        {
            let ghost before = plan@;
            let a = ChildAction::Remove { index: m + j };
            plan.push(a);
            assert(plan@.map_values(|a: ChildAction| action_view(a)) =~= before.map_values(
                |a: ChildAction| action_view(a),
            ).push(action_view(a)));
            assert(target.take(m + j + 1) =~= target.take(m + j).push(target[m + j]));
            j = j + 1;
        }
        assert(target.take(m + removals) =~= target);
    }
    plan
}

/// The number of buttons after a pass over `children` buttons for `workspaces` ones.
pub open spec fn children_after(children: nat, workspaces: nat) -> nat {
    if children <= workspaces {
        workspaces
    } else {
        (children - (children - workspaces + 1) / 2) as nat
    }
}

/// The change of the number of buttons that a step makes.
pub open spec fn count_after(children: int, plan: Seq<ChildActionView>) -> int
    decreases plan.len(),
{
    if plan.len() == 0 {
        children
    } else {
        let before = count_after(children, plan.drop_last());
        match plan.last() {
            ChildActionView::Remove { .. } => before - 1,
            ChildActionView::Append { .. } => before + 1,
            ChildActionView::Update { .. } => before,
        }
    }
}

proof fn lemma_count_after_append(children: int, a: Seq<ChildActionView>, b: Seq<ChildActionView>)
    ensures
        count_after(children, a + b) == count_after(count_after(children, a), b),
    decreases b.len(),
{
    if b.len() == 0 {
        assert(a + b =~= a);
    } else {
        lemma_count_after_append(children, a, b.drop_last());
        assert((a + b).drop_last() =~= a + b.drop_last());
    }
}

proof fn lemma_count_uniform(children: int, s: Seq<ChildActionView>, delta: int)
    requires
        forall|i: int|
            0 <= i < s.len() ==> (delta == 0 && #[trigger] s[i] is Update) || (delta == 1 && s[i] is Append)
                || (delta == -1 && s[i] is Remove),
    ensures
        delta == 0 ==> count_after(children, s) == children,
        delta == 1 ==> count_after(children, s) == children + s.len(),
        delta == -1 ==> count_after(children, s) == children - s.len(),
    decreases s.len(),
{
    if s.len() > 0 {
        assert forall|i: int| 0 <= i < s.drop_last().len() implies (delta == 0
            && #[trigger] s.drop_last()[i] is Update) || (delta == 1 && s.drop_last()[i] is Append)
            || (delta == -1 && s.drop_last()[i] is Remove) by {
            assert(s.drop_last()[i] == s[i]);
        }
        lemma_count_uniform(children, s.drop_last(), delta);
        assert(s.last() == s[s.len() - 1]);
    }
}

/// One pass leaves a button for every workspace when there were no more buttons than
/// workspaces, and otherwise removes half the surplus, rounded up.
pub proof fn law_pass_button_count(children: nat, ws: Seq<WorkspaceView>)
    ensures
        count_after(children as int, plan_children(children, ws)) == children_after(children, ws.len()),
{
    let m = ws.len();
    let plan = plan_children(children, ws);
    let k = min_nat(children, m);
    let updates = plan.take(k as int);
    let rest = plan.skip(k as int);
    assert(updates + rest =~= plan);
    lemma_count_after_append(children as int, updates, rest);
    lemma_count_uniform(children as int, updates, 0);
    if children <= m {
        lemma_count_uniform(children as int, rest, 1);
    } else {
        lemma_count_uniform(children as int, rest, -1);
    }
}

/// Repeated passes bring the row in line with the workspaces: a pass never leaves fewer
/// buttons than workspaces, halves a surplus (rounding down), and changes nothing once the
/// counts agree.
pub proof fn law_passes_shrink_surplus(children: nat, workspaces: nat)
    ensures
        children_after(children, workspaces) >= workspaces,
        children > workspaces ==> children_after(children, workspaces) - workspaces == (children
            - workspaces) / 2,
        children > workspaces ==> children_after(children, workspaces) < children,
        children_after(workspaces, workspaces) == workspaces,
{
}

/// Of the workspaces read for a monitor, at most one is focused, and a focused workspace
/// is always shown.
pub proof fn law_one_focused_workspace(state: Json, monitor_id: u32)
    ensures
        workspaces_of(state, monitor_id) matches Ok(v) ==> {
            &&& forall|i: int, j: int|
                0 <= i < v.len() && 0 <= j < v.len() && (#[trigger] v[i]).1 && (#[trigger] v[j]).1
                    ==> i == j
            &&& forall|i: int| 0 <= i < v.len() && (#[trigger] v[i]).1 ==> v[i].2
        },
{
    if let Ok(v) = workspaces_of(state, monitor_id) {
        let monitors = json_get(state, "monitors"@);
        let items = json_items(json_get_opt(monitors, "elements"@)).unwrap();
        let monitor = find_monitor(items, monitor_id).unwrap();
        let workspaces = json_get(monitor, "workspaces"@);
        let ws = json_items(json_get_opt(workspaces, "elements"@)).unwrap();
        let entries = ws.map_values(|w: Json| entry_view(w));
        assert(forall|i: int| 0 <= i < entries.len() ==> !(#[trigger] entries[i]).1);
        assert(v == mark_focused(entries, json_u64(json_get_opt(workspaces, "focused"@))));
    }
}

/// A script that writes the button width (by either request) and reads it back (by either
/// request) gets back what it wrote.
pub proof fn law_item_size_read_after_write(v: u32, height: i32)
    ensures
        ((ItemSize { width: v as i32, height }).width as u32) == v,
{
    assert((v as i32) as u32 == v) by (bit_vector);
}

/// A button as shown: its label, whether it is shown, whether it is selected.
pub type ButtonView = (Seq<char>, bool, bool);

/// The row of buttons after one step.
pub open spec fn apply_action(row: Seq<ButtonView>, a: ChildActionView) -> Seq<ButtonView> {
    match a {
        ChildActionView::Update { index, label, visible, selected } => if index < row.len() {
            row.update(index as int, (label, visible, selected))
        } else {
            row
        },
        ChildActionView::Remove { index } => if index < row.len() {
            row.remove(index as int)
        } else {
            row
        },
        ChildActionView::Append { label, visible, selected, .. } => row.push((label, visible, selected)),
    }
}

/// The row of buttons after the steps of `plan`, in order.
pub open spec fn apply_plan(row: Seq<ButtonView>, plan: Seq<ChildActionView>) -> Seq<ButtonView>
    decreases plan.len(),
{
    if plan.len() == 0 {
        row
    } else {
        apply_action(apply_plan(row, plan.drop_last()), plan.last())
    }
}

/// The button that stands for the workspace at `i`: labelled by its name (else its
/// one-based position), shown when the workspace is shown or focused, selected when it is
/// focused.
pub open spec fn expected_button(ws: Seq<WorkspaceView>, i: int) -> ButtonView {
    (label_of(ws[i].0, i as nat), ws[i].1 || ws[i].2, ws[i].1)
}

proof fn lemma_apply_plan_append(row: Seq<ButtonView>, a: Seq<ChildActionView>, b: Seq<ChildActionView>)
    ensures
        apply_plan(row, a + b) == apply_plan(apply_plan(row, a), b),
    decreases b.len(),
{
    if b.len() == 0 {
        assert(a + b =~= a);
    } else {
        lemma_apply_plan_append(row, a, b.drop_last());
        assert((a + b).drop_last() =~= a + b.drop_last());
        assert((a + b).last() == b.last());
    }
}

proof fn lemma_updates(row: Seq<ButtonView>, ws: Seq<WorkspaceView>, plan: Seq<ChildActionView>, j: nat)
    requires
        j <= plan.len(),
        plan.len() <= row.len(),
        plan.len() <= ws.len(),
        forall|i: int|
            0 <= i < plan.len() ==> #[trigger] plan[i] == (ChildActionView::Update {
                index: i as nat,
                label: label_of(ws[i].0, i as nat),
                visible: ws[i].1 || ws[i].2,
                selected: ws[i].1,
            }),
    ensures
        apply_plan(row, plan.take(j as int)).len() == row.len(),
        forall|i: int| 0 <= i < j ==> #[trigger] apply_plan(row, plan.take(j as int))[i] == expected_button(ws, i),
        forall|i: int| j <= i < row.len() ==> #[trigger] apply_plan(row, plan.take(j as int))[i] == row[i],
    decreases j,
{
    if j > 0 {
        lemma_updates(row, ws, plan, (j - 1) as nat);
        assert(plan.take(j as int).drop_last() =~= plan.take(j - 1));
        assert(plan.take(j as int).last() == plan[j - 1]);
    }
}

proof fn lemma_appends(row: Seq<ButtonView>, ws: Seq<WorkspaceView>, plan: Seq<ChildActionView>, j: nat)
    requires
        j <= plan.len(),
        row.len() + plan.len() == ws.len(),
        forall|i: int| 0 <= i < row.len() ==> #[trigger] row[i] == expected_button(ws, i),
        forall|k: int|
            0 <= k < plan.len() ==> #[trigger] plan[k] == (ChildActionView::Append {
                index: (row.len() + k) as nat,
                label: label_of(ws[row.len() + k].0, (row.len() + k) as nat),
                visible: ws[row.len() + k].1 || ws[row.len() + k].2,
                selected: ws[row.len() + k].1,
                class: "workspacechild"@,
            }),
    ensures
        apply_plan(row, plan.take(j as int)).len() == row.len() + j,
        forall|i: int|
            0 <= i < row.len() + j ==> #[trigger] apply_plan(row, plan.take(j as int))[i] == expected_button(ws, i),
    decreases j,
{
    if j > 0 {
        lemma_appends(row, ws, plan, (j - 1) as nat);
        assert(plan.take(j as int).drop_last() =~= plan.take(j - 1));
        assert(plan.take(j as int).last() == plan[j - 1]);
    }
}

proof fn lemma_removals(row: Seq<ButtonView>, ws: Seq<WorkspaceView>, plan: Seq<ChildActionView>, j: nat)
    requires
        j <= plan.len(),
        ws.len() < row.len(),
        plan.len() == (row.len() - ws.len() + 1) / 2,
        forall|i: int| 0 <= i < ws.len() ==> #[trigger] row[i] == expected_button(ws, i),
        forall|k: int| 0 <= k < plan.len() ==> #[trigger] plan[k] == (ChildActionView::Remove {
            index: (ws.len() + k) as nat,
        }),
    ensures
        apply_plan(row, plan.take(j as int)).len() == row.len() - j,
        forall|i: int|
            0 <= i < ws.len() ==> #[trigger] apply_plan(row, plan.take(j as int))[i] == expected_button(ws, i),
    decreases j,
{
    if j > 0 {
        lemma_removals(row, ws, plan, (j - 1) as nat);
        assert(plan.take(j as int).drop_last() =~= plan.take(j - 1));
        assert(plan.take(j as int).last() == plan[j - 1]);
        assert(ws.len() + (j - 1) < row.len() - (j - 1));
    }
}

/// One pass gives every workspace its button: whatever row of buttons it starts from, the
/// button at each workspace's position afterwards carries that workspace's label, is shown
/// exactly when the workspace is shown or focused, and is selected exactly when it is
/// focused; the row then holds as many buttons as `children_after` says.
pub proof fn law_pass_shows_workspaces(row: Seq<ButtonView>, ws: Seq<WorkspaceView>)
    ensures
        apply_plan(row, plan_children(row.len(), ws)).len() == children_after(row.len(), ws.len()),
        forall|i: int|
            0 <= i < ws.len() ==> #[trigger] apply_plan(row, plan_children(row.len(), ws))[i]
                == expected_button(ws, i),
{
    let n = row.len();
    let m = ws.len();
    let plan = plan_children(n, ws);
    let k = min_nat(n, m);
    let updates = plan.take(k as int);
    let rest = plan.skip(k as int);
    assert(updates + rest =~= plan);
    lemma_apply_plan_append(row, updates, rest);
    assert(updates.take(k as int) =~= updates);
    lemma_updates(row, ws, updates, k);
    let mid = apply_plan(row, updates);
    if n <= m {
        assert(rest.take(rest.len() as int) =~= rest);
        lemma_appends(mid, ws, rest, rest.len());
    } else {
        assert(rest.take(rest.len() as int) =~= rest);
        lemma_removals(mid, ws, rest, rest.len());
    }
}

} // verus!

