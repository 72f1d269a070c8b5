//! From what the window server says to a desktop snapshot.
use crate::ids;
use crate::macos::snapshot;
use crate::macos::snapshot::order_key;
use crate::macos::types::{
    outer_direction_from_native, rect_from_native, ActiveSpaceFocusTargetHint,
    MacosNativeOperationError, MacosNativeProbeError,
    NativeDesktopSnapshot, NativeDirection, NativeSpaceSnapshot, NativeWindowSnapshot,
    RawSpaceRecord, RawTopologySnapshot, RawWindow, SpaceKind, WindowSnapshot,
};
use crate::select;
use crate::select::Key;
use crate::topology;
use std::collections::HashMap;
use std::collections::HashSet;
use vstd::prelude::*;

verus! {

/// The type number of an ordinary desktop.
pub const DESKTOP_SPACE_TYPE: i32 = 0;

/// The type number of a fullscreen space.
pub const FULLSCREEN_SPACE_TYPE: i32 = 4;

/// What a space is used for. Stage Manager takes precedence over tiling, and tiling over the
/// type number.
pub open spec fn space_kind(space: RawSpaceRecord) -> SpaceKind {
    if space.stage_manager_managed {
        SpaceKind::StageManagerOpaque
    } else if space.has_tile_layout_manager || space.tile_spaces@.len() > 0 {
        SpaceKind::SplitView
    } else if space.space_type == FULLSCREEN_SPACE_TYPE {
        SpaceKind::Fullscreen
    } else if space.space_type == DESKTOP_SPACE_TYPE {
        SpaceKind::Desktop
    } else {
        SpaceKind::System
    }
}

/// Tells what a space is used for.
pub fn classify_space(raw_space: &RawSpaceRecord) -> (result: SpaceKind)
    ensures
        result == space_kind(*raw_space),
{
    if raw_space.stage_manager_managed {
        SpaceKind::StageManagerOpaque
    } else if raw_space.has_tile_layout_manager || raw_space.tile_spaces.len() > 0 {
        SpaceKind::SplitView
    } else if raw_space.space_type == FULLSCREEN_SPACE_TYPE {
        SpaceKind::Fullscreen
    } else if raw_space.space_type == DESKTOP_SPACE_TYPE {
        SpaceKind::Desktop
    } else {
        SpaceKind::System
    }
}

/// Front-to-back rank of a window: by its place on screen, then by level, higher levels first,
/// then by identifier.
pub open spec fn front_rank(window: RawWindow) -> select::Rank {
    (snapshot::order_place(window.visible_index), -(window.level as int), window.id as int, 0)
}

/// Front-to-back ranks of a list of windows.
pub open spec fn front_ranks(windows: Seq<RawWindow>) -> Seq<select::Rank> {
    Seq::new(windows.len(), |i: int| front_rank(windows[i]))
}

/// Windows from front to back.
pub open spec fn front_to_back(windows: Seq<RawWindow>) -> Seq<RawWindow> {
    let order = select::stable_order(front_ranks(windows));
    Seq::new(order.len(), |i: int| windows[order[i]])
}

fn front_key(window: &RawWindow) -> (result: Key)
    ensures
        result@ == front_rank(*window),
{
    Key {
        first: order_key(window.visible_index),
        second: -(window.level as i128),
        third: window.id as i128,
        fourth: 0,
    }
}

/// Arranges windows from front to back.
pub fn order_active_space_windows(windows: &Vec<RawWindow>) -> (result: Vec<RawWindow>)
    ensures
        result@ == front_to_back(windows@),
        result.len() == windows.len(),
{
    let mut keys: Vec<Key> = Vec::new();
    let mut at: usize = 0;
    while at < windows.len()
        invariant
            at <= windows.len(),
            keys.len() == at,
            forall|i: int| 0 <= i < at ==> (#[trigger] keys@[i])@ == front_rank(windows@[i]),
        decreases windows.len() - at,
    {
        keys.push(front_key(&windows[at]));
        at += 1;
    }
    assert(select::all_ranks_of(keys@) =~= front_ranks(windows@));
    let order = select::stable_order_of_keys(&keys);
    let mut result: Vec<RawWindow> = Vec::new();
    let mut next: usize = 0;
    while next < order.len()
        invariant
            next <= order.len(),
            order.len() == windows.len(),
            forall|i: int| 0 <= i < order.len() ==> (#[trigger] order@[i]) < windows.len(),
            result.len() == next,
            forall|i: int|
                0 <= i < next ==> #[trigger] result@[i] == windows@[order@[i] as int],
        decreases order.len() - next,
    {
        result.push(windows[order[next]].clone());
        next += 1;
    }
    proof {
        let sorted = select::stable_order(front_ranks(windows@));
        assert forall|i: int| 0 <= i < result.len() implies #[trigger] result@[i]
            == windows@[sorted[i]] by {
            assert(select::positions(order@)[i] == sorted[i]);
        }
        assert(result@ =~= front_to_back(windows@));
    }
    result
}

/// A window placed at `index` of space `space_id`.
pub open spec fn placed(window: RawWindow, space_id: u64, index: int) -> WindowSnapshot {
    WindowSnapshot {
        id: window.id,
        pid: window.pid,
        app_id: window.app_id,
        title: window.title,
        space_id,
        order_index: Some(index as usize),
    }
}

/// A window of an inactive space, of which only the identifier is known.
pub open spec fn unplaced(id: u64, space_id: u64) -> WindowSnapshot {
    WindowSnapshot { id, pid: None, app_id: None, title: None, space_id, order_index: None }
}

/// The windows of an active space, front to back.
pub open spec fn active_snapshots(space_id: u64, windows: Seq<RawWindow>) -> Seq<WindowSnapshot> {
    let ordered = front_to_back(windows);
    Seq::new(ordered.len(), |i: int| placed(ordered[i], space_id, i))
}

/// The windows of an inactive space, in the order in which they are listed.
pub open spec fn inactive_snapshots(space_id: u64, window_ids: Seq<u64>) -> Seq<WindowSnapshot> {
    Seq::new(window_ids.len(), |i: int| unplaced(window_ids[i], space_id))
}

/// Describes the windows of an active space, front to back.
pub fn snapshots_for_active_space(space_id: u64, windows: &Vec<RawWindow>) -> (result: Vec<
    WindowSnapshot,
>)
    ensures
        result@ == active_snapshots(space_id, windows@),
{
    let ordered = order_active_space_windows(windows);
    let mut result: Vec<WindowSnapshot> = Vec::new();
    let mut at: usize = 0;
    while at < ordered.len()
        invariant
            at <= ordered.len(),
            result.len() == at,
            forall|i: int|
                0 <= i < at ==> #[trigger] result@[i] == placed(ordered@[i], space_id, i),
        decreases ordered.len() - at,
    {
        let window: RawWindow = ordered[at].clone();
        result.push(
            WindowSnapshot {
                id: window.id,
                pid: window.pid,
                app_id: window.app_id,
                title: window.title,
                space_id,
                order_index: Some(at),
            },
        );
        at += 1;
    }
    assert(result@ =~= active_snapshots(space_id, windows@));
    result
}

/// Describes the windows of an inactive space.
pub fn snapshots_for_inactive_space(space_id: u64, window_ids: &Vec<u64>) -> (result: Vec<
    WindowSnapshot,
>)
    ensures
        result@ == inactive_snapshots(space_id, window_ids@),
{
    let mut result: Vec<WindowSnapshot> = Vec::new();
    let mut at: usize = 0;
    while at < window_ids.len()
        invariant
            at <= window_ids.len(),
            result.len() == at,
            forall|i: int|
                0 <= i < at ==> #[trigger] result@[i] == unplaced(window_ids@[i], space_id),
        decreases window_ids.len() - at,
    {
        result.push(
            WindowSnapshot {
                id: window_ids[at],
                pid: None,
                app_id: None,
                title: None,
                space_id,
                order_index: None,
            },
        );
        at += 1;
    }
    assert(result@ =~= inactive_snapshots(space_id, window_ids@));
    result
}

/// The windows listed for an active space; none, if it is not listed.
pub open spec fn listed_windows(topology: RawTopologySnapshot, space_id: u64) -> Seq<RawWindow> {
    if topology.active_space_windows@.contains_key(space_id) {
        topology.active_space_windows@[space_id]@
    } else {
        Seq::empty()
    }
}

/// The window identifiers listed for an inactive space; none, if it is not listed.
pub open spec fn listed_ids(topology: RawTopologySnapshot, space_id: u64) -> Seq<u64> {
    if topology.inactive_space_window_ids@.contains_key(space_id) {
        topology.inactive_space_window_ids@[space_id]@
    } else {
        Seq::empty()
    }
}

/// The windows of one space.
pub open spec fn space_snapshots(topology: RawTopologySnapshot, space_id: u64) -> Seq<
    WindowSnapshot,
> {
    if topology.active_space_ids@.contains(space_id) {
        active_snapshots(space_id, listed_windows(topology, space_id))
    } else {
        inactive_snapshots(space_id, listed_ids(topology, space_id))
    }
}

/// The windows of the first `count` spaces.
pub open spec fn snapshots_of_spaces(topology: RawTopologySnapshot, count: int) -> Seq<
    WindowSnapshot,
>
    decreases count,
{
    if count <= 0 {
        Seq::empty()
    } else {
        snapshots_of_spaces(topology, count - 1) + space_snapshots(
            topology,
            topology.spaces@[count - 1].managed_space_id,
        )
    }
}

/// Describes every window, space by space.
pub fn window_snapshots_from_topology(topology: &RawTopologySnapshot) -> (result: Vec<
    WindowSnapshot,
>)
    ensures
        result@ == snapshots_of_spaces(*topology, topology.spaces.len() as int),
{
    let mut result: Vec<WindowSnapshot> = Vec::new();
    let mut at: usize = 0;
    while at < topology.spaces.len()
        invariant
            at <= topology.spaces.len(),
            result@ == snapshots_of_spaces(*topology, at as int),
        decreases topology.spaces.len() - at,
    {
        let space_id: u64 = topology.spaces[at].managed_space_id;
        let mut here: Vec<WindowSnapshot> = if topology.active_space_ids.contains(&space_id) {
            match topology.active_space_windows.get(&space_id) {
                Some(windows) => snapshots_for_active_space(space_id, windows),
                None => snapshots_for_active_space(space_id, &Vec::new()),
            }
        } else {
            match topology.inactive_space_window_ids.get(&space_id) {
                Some(window_ids) => snapshots_for_inactive_space(space_id, window_ids),
                None => snapshots_for_inactive_space(space_id, &Vec::new()),
            }
        };
        assert(here@ == space_snapshots(*topology, space_id));
        result.append(&mut here);
        at += 1;
    }
    result
}

/// A window at `index` of the active space `space_id`.
pub open spec fn native_placed(window: RawWindow, space_id: u64, index: int) -> NativeWindowSnapshot {
    NativeWindowSnapshot {
        id: window.id,
        pid: window.pid,
        app_id: window.app_id,
        title: window.title,
        bounds: window.frame,
        level: window.level,
        space_id,
        order_index: Some(index as usize),
    }
}

/// A window of the inactive space `space_id`, of which only the identifier is known.
pub open spec fn native_unplaced(id: u64, space_id: u64) -> NativeWindowSnapshot {
    NativeWindowSnapshot {
        id,
        pid: None,
        app_id: None,
        title: None,
        bounds: None,
        level: 0,
        space_id,
        order_index: None,
    }
}

/// The windows of one space, with their frames and levels.
pub open spec fn native_space_windows(topology: RawTopologySnapshot, space_id: u64) -> Seq<
    NativeWindowSnapshot,
> {
    if topology.active_space_ids@.contains(space_id) {
        let ordered = front_to_back(listed_windows(topology, space_id));
        Seq::new(ordered.len(), |i: int| native_placed(ordered[i], space_id, i))
    } else {
        let ids = listed_ids(topology, space_id);
        Seq::new(ids.len(), |i: int| native_unplaced(ids[i], space_id))
    }
}

/// The windows of the first `count` spaces, with their frames and levels.
pub open spec fn native_windows(topology: RawTopologySnapshot, count: int) -> Seq<
    NativeWindowSnapshot,
>
    decreases count,
{
    if count <= 0 {
        Seq::empty()
    } else {
        native_windows(topology, count - 1) + native_space_windows(
            topology,
            topology.spaces@[count - 1].managed_space_id,
        )
    }
}

/// A space as the snapshot shows it.
pub open spec fn native_space_of(topology: RawTopologySnapshot, space: RawSpaceRecord) -> NativeSpaceSnapshot {
    NativeSpaceSnapshot {
        id: space.managed_space_id,
        display_index: space.display_index,
        active: topology.active_space_ids@.contains(space.managed_space_id),
        kind: space_kind(space),
    }
}

/// The spaces as the snapshot shows them.
pub open spec fn native_spaces(topology: RawTopologySnapshot) -> Seq<NativeSpaceSnapshot> {
    Seq::new(topology.spaces@.len(), |i: int| native_space_of(topology, topology.spaces@[i]))
}

fn native_windows_of_space(topology: &RawTopologySnapshot, space_id: u64) -> (result: Vec<
    NativeWindowSnapshot,
>)
    ensures
        result@ == native_space_windows(*topology, space_id),
{
    let mut result: Vec<NativeWindowSnapshot> = Vec::new();
    if topology.active_space_ids.contains(&space_id) {
        let ordered: Vec<RawWindow> = match topology.active_space_windows.get(&space_id) {
            Some(windows) => order_active_space_windows(windows),
            None => order_active_space_windows(&Vec::new()),
        };
        let mut at: usize = 0;
        while at < ordered.len()
            invariant
                at <= ordered.len(),
                result.len() == at,
                forall|i: int|
                    0 <= i < at ==> #[trigger] result@[i] == native_placed(
                        ordered@[i],
                        space_id,
                        i,
                    ),
            decreases ordered.len() - at,
        {
            let window: RawWindow = ordered[at].clone();
            result.push(
                NativeWindowSnapshot {
                    id: window.id,
                    pid: window.pid,
                    app_id: window.app_id,
                    title: window.title,
                    bounds: window.frame,
                    level: window.level,
                    space_id,
                    order_index: Some(at),
                },
            );
            at += 1;
        }
        assert(ordered@ == front_to_back(listed_windows(*topology, space_id)));
        assert(result@ =~= native_space_windows(*topology, space_id));
    } else {
        let ghost ids = listed_ids(*topology, space_id);
        if let Some(window_ids) = topology.inactive_space_window_ids.get(&space_id) {
            let mut at: usize = 0;
            while at < window_ids.len()
                invariant
                    at <= window_ids.len(),
                    result.len() == at,
                    forall|i: int|
                        0 <= i < at ==> #[trigger] result@[i] == native_unplaced(
                            window_ids@[i],
                            space_id,
                        ),
                decreases window_ids.len() - at,
            {
                result.push(
                    NativeWindowSnapshot {
                        id: window_ids[at],
                        pid: None,
                        app_id: None,
                        title: None,
                        bounds: None,
                        level: 0,
                        space_id,
                        order_index: None,
                    },
                );
                at += 1;
            }
        }
        assert(result@ =~= native_space_windows(*topology, space_id));
    }
    result
}

/// Turns what the window server says into a desktop snapshot: the windows of active spaces from
/// front to back with all that is known of them, those of inactive spaces by identifier only.
pub fn native_desktop_snapshot_from_topology(topology: &RawTopologySnapshot) -> (result:
    NativeDesktopSnapshot)
    ensures
        result.spaces@ == native_spaces(*topology),
        result.active_space_ids@ == topology.active_space_ids@,
        result.windows@ == native_windows(*topology, topology.spaces.len() as int),
        result.focused_window_id == topology.focused_window_id,
{
    let mut spaces: Vec<NativeSpaceSnapshot> = Vec::new();
    let mut windows: Vec<NativeWindowSnapshot> = Vec::new();
    let mut at: usize = 0;
    while at < topology.spaces.len()
        invariant
            at <= topology.spaces.len(),
            spaces.len() == at,
            forall|i: int|
                0 <= i < at ==> #[trigger] spaces@[i] == native_space_of(
                    *topology,
                    topology.spaces@[i],
                ),
            windows@ == native_windows(*topology, at as int),
        decreases topology.spaces.len() - at,
    {
        let space: &RawSpaceRecord = &topology.spaces[at];
        let space_id: u64 = space.managed_space_id;
        spaces.push(
            NativeSpaceSnapshot {
                id: space_id,
                display_index: space.display_index,
                active: topology.active_space_ids.contains(&space_id),
                kind: classify_space(space),
            },
        );
        let mut here = native_windows_of_space(topology, space_id);
        windows.append(&mut here);
        at += 1;
    }
    assert(spaces@ =~= native_spaces(*topology));
    NativeDesktopSnapshot {
        spaces,
        active_space_ids: ids::copy_set(&topology.active_space_ids),
        windows,
        focused_window_id: topology.focused_window_id,
    }
}

/// Which windows carry the identifier `id`.
pub open spec fn raw_with_id(windows: Seq<RawWindow>, id: u64) -> Seq<bool> {
    Seq::new(windows.len(), |i: int| windows[i].id == id)
}

/// Window `window_id` among the windows of an active space, with its place from the front.
pub open spec fn snapshot_in(space_id: u64, windows: Seq<RawWindow>, window_id: u64) -> Option<
    WindowSnapshot,
> {
    let ordered = front_to_back(windows);
    match select::first_set(raw_with_id(ordered, window_id)) {
        Some(at) => Some(placed(ordered[at], space_id, at)),
        None => None,
    }
}

/// Finds a window of an active space, with its place from the front.
pub fn active_window_snapshot(space_id: u64, windows: &Vec<RawWindow>, window_id: u64) -> (result:
    Option<WindowSnapshot>)
    ensures
        result == snapshot_in(space_id, windows@, window_id),
{
    let ordered = order_active_space_windows(windows);
    let ghost flags = raw_with_id(ordered@, window_id);
    let mut at: usize = 0;
    while at < ordered.len()
        invariant
            at <= ordered.len(),
            ordered@ == front_to_back(windows@),
            flags == raw_with_id(ordered@, window_id),
            forall|i: int| 0 <= i < at ==> !#[trigger] flags[i],
        decreases ordered.len() - at,
    {
        if ordered[at].id == window_id {
            proof {
                select::lemma_first_set(flags, at as int);
            }
            let window: RawWindow = ordered[at].clone();
            return Some(
                WindowSnapshot {
                    id: window.id,
                    pid: window.pid,
                    app_id: window.app_id,
                    title: window.title,
                    space_id,
                    order_index: Some(at),
                },
            );
        }
        at += 1;
    }
    proof {
        select::lemma_none_set(flags);
    }
    None
}

/// Window `id` is listed for the active space `space_id`.
pub open spec fn lists_window(windows: Map<u64, Vec<RawWindow>>, space_id: u64, id: u64) -> bool {
    windows.contains_key(space_id) && exists|i: int|
        0 <= i < windows[space_id]@.len() && (#[trigger] windows[space_id]@[i]).id == id
}

/// Identifier `id` is listed for the inactive space `space_id`.
pub open spec fn lists_id(window_ids: Map<u64, Vec<u64>>, space_id: u64, id: u64) -> bool {
    window_ids.contains_key(space_id) && window_ids[space_id]@.contains(id)
}

/// No window of any active space lies in front of window `at` of space `space_id`.
pub open spec fn is_frontmost(windows: Map<u64, Vec<RawWindow>>, space_id: u64, at: int) -> bool {
    &&& windows.contains_key(space_id)
    &&& 0 <= at < windows[space_id]@.len()
    &&& forall|other: u64, i: int|
        windows.contains_key(other) && 0 <= i < windows[other]@.len() ==> !select::rank_lt(
            front_rank(#[trigger] windows[other]@[i]),
            front_rank(windows[space_id]@[at]),
        )
}

/// Some active space lists a window that carries the identifier `id`.
pub open spec fn names_window(windows: Map<u64, Vec<RawWindow>>, id: u64) -> bool {
    exists|space_id: u64| #[trigger] lists_window(windows, space_id, id)
}

/// Some active space lists a window that carries the identifier `focused`.
pub open spec fn is_listed(windows: Map<u64, Vec<RawWindow>>, focused: Option<u64>) -> bool {
    focused is Some && names_window(windows, focused->0)
}

/// `found` describes the focused window: the one that `focused` names, where an active space
/// lists it, else one that no other window of an active space lies in front of.
pub open spec fn describes_focus(
    windows: Map<u64, Vec<RawWindow>>,
    focused: Option<u64>,
    found: WindowSnapshot,
) -> bool {
    &&& windows.contains_key(found.space_id)
    &&& snapshot_in(found.space_id, windows[found.space_id]@, found.id) == Some(found)
    &&& if is_listed(windows, focused) {
        found.id == focused->0
    } else {
        exists|at: int|
            is_frontmost(windows, found.space_id, at) && windows[found.space_id]@[at].id == found.id
    }
}

fn spaces_listed(windows: &HashMap<u64, Vec<RawWindow>>) -> (result: Vec<u64>)
    ensures
        forall|space_id: u64|
            windows@.contains_key(space_id) <==> #[trigger] result@.contains(space_id),
{
    let mut result: Vec<u64> = Vec::new();
    for space_id in walk: windows.keys()
        invariant
            walk.seq().unref().to_set() == windows@.dom(),
            forall|k: u64| #[trigger] result@.contains(k) ==> windows@.contains_key(k),
            forall|i: int| 0 <= i < walk.index() ==> result@.contains(*#[trigger] walk.seq()[i]),
    {
        let ghost before = result@;
        result.push(*space_id);
        proof {
            assert(walk.seq().unref()[walk.index()] == *space_id);
            assert(walk.seq().unref().to_set().contains(*space_id));
            lemma_contains_after_push(before, *space_id);
        }
    }
    result
}

proof fn lemma_contains_after_push(s: Seq<u64>, value: u64)
    ensures
        forall|k: u64| #[trigger] s.push(value).contains(k) <==> s.contains(k) || k == value,
{
    assert forall|k: u64| #[trigger] s.push(value).contains(k) <==> s.contains(k) || k == value by {
        if s.contains(k) {
            let i = choose|i: int| 0 <= i < s.len() && s[i] == k;
            assert(s.push(value)[i] == k);
        }
        if k == value {
            assert(s.push(value)[s.len() as int] == k);
        }
    }
}

fn lists_window_id(windows: &Vec<RawWindow>, window_id: u64) -> (result: bool)
    ensures
        result == exists|i: int| 0 <= i < windows@.len() && (#[trigger] windows@[i]).id == window_id,
{
    let mut at: usize = 0;
    while at < windows.len()
        invariant
            at <= windows.len(),
            forall|i: int| 0 <= i < at ==> (#[trigger] windows@[i]).id != window_id,
        decreases windows.len() - at,
    {
        if windows[at].id == window_id {
            return true;
        }
        at += 1;
    }
    false
}

/// A window is found in a space exactly when the space lists it.
pub proof fn listed_windows_are_found(space_id: u64, windows: Seq<RawWindow>, window_id: u64)
    ensures
        snapshot_in(space_id, windows, window_id) is Some <==> exists|i: int|
            0 <= i < windows.len() && (#[trigger] windows[i]).id == window_id,
        snapshot_in(space_id, windows, window_id) matches Some(found) ==> found.id == window_id
            && found.space_id == space_id,
{
    let ranks = front_ranks(windows);
    let ordered = front_to_back(windows);
    let flags = raw_with_id(ordered, window_id);
    select::stable_order_is_a_sorted_permutation(ranks);
    select::first_set_finds_the_first(flags);
    if let Some(at) = select::first_set(flags) {
        select::lemma_stable_order_in_range(ranks, at);
        let i = select::stable_order(ranks)[at];
        assert(windows[i].id == window_id);
    } else {
        assert forall|i: int| 0 <= i < windows.len() implies (#[trigger] windows[i]).id
            != window_id by {
            let at = select::lemma_stable_order_covers(ranks, i);
            assert(ordered[at] == windows[i]);
            assert(!flags[at]);
        }
    }
}

/// Finds the focused window among the windows of the active spaces. Where several windows are
/// equally far in front, which of them is found depends on the order in which the spaces are
/// walked.
pub fn focused_window_from_active_space_windows(
    active_space_windows: &HashMap<u64, Vec<RawWindow>>,
    focused_window_id: Option<u64>,
) -> (result: Result<WindowSnapshot, MacosNativeProbeError>)
    ensures
        match result {
            Ok(found) => describes_focus(active_space_windows@, focused_window_id, found),
            Err(error) => error == MacosNativeProbeError::MissingFocusedWindow && forall|
                space_id: u64,
            |
                active_space_windows@.contains_key(space_id) ==> (
                #[trigger] active_space_windows@[space_id])@.len() == 0,
        },
{
    let spaces: Vec<u64> = spaces_listed(active_space_windows);
    if let Some(target_window_id) = focused_window_id {
        let found = named_window(active_space_windows, &spaces, target_window_id);
        if let Some(found) = found {
            return Ok(found);
        }
    }
    assert(!is_listed(active_space_windows@, focused_window_id));
    match frontmost_window(active_space_windows, &spaces) {
        Some((space_id, at)) => {
            let windows: &Vec<RawWindow> = active_space_windows.get(&space_id).unwrap();
            let id: u64 = windows[at].id;
            proof {
                listed_windows_are_found(space_id, windows@, id);
                assert(windows@[at as int].id == id);
            }
            match active_window_snapshot(space_id, windows, id) {
                Some(found) => {
                    assert(is_frontmost(active_space_windows@, space_id, at as int));
                    Ok(found)
                },
                None => Err(MacosNativeProbeError::MissingFocusedWindow),
            }
        },
        None => Err(MacosNativeProbeError::MissingFocusedWindow),
    }
}

fn named_window(
    windows: &HashMap<u64, Vec<RawWindow>>,
    spaces: &Vec<u64>,
    window_id: u64,
) -> (result: Option<WindowSnapshot>)
    requires
        forall|space_id: u64|
            windows@.contains_key(space_id) <==> #[trigger] spaces@.contains(space_id),
    ensures
        match result {
            Some(found) => describes_focus(windows@, Some(window_id), found),
            None => !is_listed(windows@, Some(window_id)),
        },
{
    let mut at: usize = 0;
    while at < spaces.len()
        invariant
            at <= spaces.len(),
            forall|space_id: u64|
                windows@.contains_key(space_id) <==> #[trigger] spaces@.contains(space_id),
            forall|i: int| 0 <= i < at ==> !lists_window(windows@, #[trigger] spaces@[i], window_id),
        decreases spaces.len() - at,
    {
        let space_id: u64 = spaces[at];
        assert(spaces@.contains(space_id));
        if let Some(here) = windows.get(&space_id) {
            proof {
                listed_windows_are_found(space_id, here@, window_id);
            }
            if let Some(found) = active_window_snapshot(space_id, here, window_id) {
                assert(lists_window(windows@, space_id, window_id));
                assert(names_window(windows@, window_id));
                assert(snapshot_in(space_id, windows@[space_id]@, window_id) == Some(found));
                return Some(found);
            }
        }
        at += 1;
    }
    assert forall|space_id: u64| !lists_window(windows@, space_id, window_id) by {
        if windows@.contains_key(space_id) {
            assert(spaces@.contains(space_id));
            let i = choose|i: int| 0 <= i < spaces@.len() && spaces@[i] == space_id;
            assert(!lists_window(windows@, spaces@[i], window_id));
        }
    }
    None
}

fn frontmost_window(windows: &HashMap<u64, Vec<RawWindow>>, spaces: &Vec<u64>) -> (result: Option<
    (u64, usize),
>)
    requires
        forall|space_id: u64|
            windows@.contains_key(space_id) <==> #[trigger] spaces@.contains(space_id),
    ensures
        match result {
            Some((space_id, at)) => is_frontmost(windows@, space_id, at as int),
            None => forall|space_id: u64|
                windows@.contains_key(space_id) ==> (#[trigger] windows@[space_id])@.len() == 0,
        },
{
    let mut best: Option<(u64, usize, Key)> = None;
    let mut at: usize = 0;
    while at < spaces.len()
        invariant
            at <= spaces.len(),
            forall|space_id: u64|
                windows@.contains_key(space_id) <==> #[trigger] spaces@.contains(space_id),
            match best {
                Some((space_id, place, key)) => windows@.contains_key(space_id) && place
                    < windows@[space_id]@.len() && key@ == front_rank(
                    windows@[space_id]@[place as int],
                ) && forall|i: int, j: int|
                    0 <= i < at && 0 <= j < windows@[spaces@[i]]@.len() ==> !select::rank_lt(
                        front_rank(#[trigger] windows@[spaces@[i]]@[j]),
                        key@,
                    ),
                None => forall|i: int|
                    0 <= i < at ==> (#[trigger] windows@[spaces@[i]])@.len() == 0,
            },
        decreases spaces.len() - at,
    {
        let space_id: u64 = spaces[at];
        assert(spaces@.contains(space_id));
        let here: &Vec<RawWindow> = windows.get(&space_id).unwrap();
        let mut place: usize = 0;
        while place < here.len()
            invariant
                at < spaces.len(),
                space_id == spaces@[at as int],
                windows@.contains_key(space_id),
                windows@[space_id] == *here,
                place <= here.len(),
                match best {
                    Some((space_id, held, key)) => windows@.contains_key(space_id) && held
                        < windows@[space_id]@.len() && key@ == front_rank(
                        windows@[space_id]@[held as int],
                    ) && (forall|i: int, j: int|
                        0 <= i < at && 0 <= j < windows@[spaces@[i]]@.len() ==> !select::rank_lt(
                            front_rank(#[trigger] windows@[spaces@[i]]@[j]),
                            key@,
                        )) && forall|j: int|
                        0 <= j < place ==> !select::rank_lt(front_rank(#[trigger] here@[j]), key@),
                    None => (forall|i: int|
                        0 <= i < at ==> (#[trigger] windows@[spaces@[i]])@.len() == 0) && place == 0,
                },
            decreases here.len() - place,
        {
            let key: Key = front_key(&here[place]);
            match best {
                Some((_, _, held)) => {
                    if key.precedes(&held) {
                        best = Some((space_id, place, key));
                    }
                },
                None => {
                    best = Some((space_id, place, key));
                },
            }
            place += 1;
        }
        at += 1;
    }
    assert forall|space_id: u64| windows@.contains_key(space_id) implies exists|i: int|
        0 <= i < spaces@.len() && #[trigger] spaces@[i] == space_id by {
        assert(spaces@.contains(space_id));
    }
    match best {
        Some((space_id, place, key)) => {
            assert(is_frontmost(windows@, space_id, place as int)) by {
                assert forall|other: u64, j: int|
                    windows@.contains_key(other) && 0 <= j
                        < windows@[other]@.len() implies !select::rank_lt(
                    front_rank(#[trigger] windows@[other]@[j]),
                    front_rank(windows@[space_id]@[place as int]),
                ) by {
                    let i = choose|i: int| 0 <= i < spaces@.len() && #[trigger] spaces@[i] == other;
                    assert(windows@[spaces@[i]]@[j] == windows@[other]@[j]);
                }
            }
            Some((space_id, place))
        },
        None => {
            assert forall|space_id: u64| windows@.contains_key(space_id) implies (
            #[trigger] windows@[space_id])@.len() == 0 by {
                let i = choose|i: int| 0 <= i < spaces@.len() && #[trigger] spaces@[i] == space_id;
                assert(windows@[spaces@[i]]@.len() == 0);
            }
            None
        },
    }
}

/// Finds the focused window of a topology.
pub fn focused_window_from_topology(topology: &RawTopologySnapshot) -> (result: Result<
    WindowSnapshot,
    MacosNativeProbeError,
>)
    ensures
        match result {
            Ok(found) => describes_focus(
                topology.active_space_windows@,
                topology.focused_window_id,
                found,
            ),
            Err(error) => error == MacosNativeProbeError::MissingFocusedWindow && forall|
                space_id: u64,
            |
                topology.active_space_windows@.contains_key(space_id) ==> (
                #[trigger] topology.active_space_windows@[space_id])@.len() == 0,
        },
{
    focused_window_from_active_space_windows(
        &topology.active_space_windows,
        topology.focused_window_id,
    )
}

/// `found` is where window `window_id` lies: an active space that lists it, and only if there is
/// none, an inactive one.
pub open spec fn is_space_of_window(
    topology: RawTopologySnapshot,
    window_id: u64,
    found: Option<u64>,
) -> bool {
    if names_window(topology.active_space_windows@, window_id) {
        found is Some && lists_window(topology.active_space_windows@, found->0, window_id)
    } else if exists|space_id: u64|
        #[trigger] lists_id(topology.inactive_space_window_ids@, space_id, window_id) {
        found is Some && lists_id(topology.inactive_space_window_ids@, found->0, window_id)
    } else {
        found is None
    }
}

/// Finds the space in which a window lies. Where several spaces list it, which of them is found
/// depends on the order in which they are walked.
pub fn space_id_for_window(topology: &RawTopologySnapshot, window_id: u64) -> (result: Option<u64>)
    ensures
        is_space_of_window(*topology, window_id, result),
{
    let ghost active = topology.active_space_windows@;
    let ghost inactive = topology.inactive_space_window_ids@;
    for space_id in walk: topology.active_space_windows.keys()
        invariant
            active == topology.active_space_windows@,
            walk.seq().unref().to_set() == active.dom(),
            forall|i: int|
                0 <= i < walk.index() ==> !lists_window(
                    active,
                    *#[trigger] walk.seq()[i],
                    window_id,
                ),
    {
        assert(walk.seq().unref()[walk.index()] == *space_id);
        assert(walk.seq().unref().to_set().contains(*space_id));
        if let Some(windows) = topology.active_space_windows.get(space_id) {
            if lists_window_id(windows, window_id) {
                assert(lists_window(active, *space_id, window_id));
                return Some(*space_id);
            }
        }
    }
    assert(!names_window(active, window_id));
    for space_id in walk: topology.inactive_space_window_ids.keys()
        invariant
            active == topology.active_space_windows@,
            inactive == topology.inactive_space_window_ids@,
            !names_window(active, window_id),
            walk.seq().unref().to_set() == inactive.dom(),
            forall|i: int|
                0 <= i < walk.index() ==> !lists_id(
                    inactive,
                    *#[trigger] walk.seq()[i],
                    window_id,
                ),
    {
        assert(walk.seq().unref()[walk.index()] == *space_id);
        assert(walk.seq().unref().to_set().contains(*space_id));
        if let Some(window_ids) = topology.inactive_space_window_ids.get(space_id) {
            if contains_id(window_ids, window_id) {
                assert(lists_id(inactive, *space_id, window_id));
                return Some(*space_id);
            }
        }
    }
    None
}

fn contains_id(ids: &Vec<u64>, id: u64) -> (result: bool)
    ensures
        result == ids@.contains(id),
{
    let mut at: usize = 0;
    while at < ids.len()
        invariant
            at <= ids.len(),
            forall|i: int| 0 <= i < at ==> #[trigger] ids@[i] != id,
        decreases ids.len() - at,
    {
        if ids[at] == id {
            return true;
        }
        at += 1;
    }
    false
}

/// Which spaces carry the identifier `space_id`.
pub open spec fn raw_spaces_with_id(spaces: Seq<RawSpaceRecord>, space_id: u64) -> Seq<bool> {
    Seq::new(spaces.len(), |i: int| spaces[i].managed_space_id == space_id)
}

/// The first space with the identifier `space_id`.
pub open spec fn raw_space(spaces: Seq<RawSpaceRecord>, space_id: u64) -> Option<RawSpaceRecord> {
    match select::first_set(raw_spaces_with_id(spaces, space_id)) {
        Some(at) => Some(spaces[at]),
        None => None,
    }
}

/// The display that shows space `space_id`.
pub open spec fn display_of(spaces: Seq<RawSpaceRecord>, space_id: u64) -> Option<usize> {
    match raw_space(spaces, space_id) {
        Some(space) => Some(space.display_index),
        None => None,
    }
}

fn find_raw_space(spaces: &Vec<RawSpaceRecord>, space_id: u64) -> (result: Option<&RawSpaceRecord>)
    ensures
        match result {
            Some(space) => raw_space(spaces@, space_id) == Some(*space),
            None => raw_space(spaces@, space_id) is None,
        },
{
    let ghost flags = raw_spaces_with_id(spaces@, space_id);
    let mut at: usize = 0;
    while at < spaces.len()
        invariant
            at <= spaces.len(),
            flags == raw_spaces_with_id(spaces@, space_id),
            forall|i: int| 0 <= i < at ==> !#[trigger] flags[i],
        decreases spaces.len() - at,
    {
        if spaces[at].managed_space_id == space_id {
            proof {
                select::lemma_first_set(flags, at as int);
            }
            return Some(&spaces[at]);
        }
        at += 1;
    }
    proof {
        select::lemma_none_set(flags);
    }
    None
}

/// Finds the display that shows a space.
pub fn display_index_for_space(topology: &RawTopologySnapshot, space_id: u64) -> (result: Option<
    usize,
>)
    ensures
        result == display_of(topology.spaces@, space_id),
{
    match find_raw_space(&topology.spaces, space_id) {
        Some(space) => Some(space.display_index),
        None => None,
    }
}

/// `space_id` is active and shown on display `display_index`.
pub open spec fn active_on_display(
    topology: RawTopologySnapshot,
    display_index: usize,
    space_id: u64,
) -> bool {
    topology.active_space_ids@.contains(space_id) && display_of(topology.spaces@, space_id) == Some(
        display_index,
    )
}

/// `found` is an active space of display `display_index`, and nothing only where there is none.
pub open spec fn is_space_of_display(
    topology: RawTopologySnapshot,
    display_index: usize,
    found: Option<u64>,
) -> bool {
    match found {
        Some(space_id) => active_on_display(topology, display_index, space_id),
        None => forall|space_id: u64|
            !#[trigger] active_on_display(topology, display_index, space_id),
    }
}

/// Finds an active space on a display. Where there are several, which of them is found depends on
/// the order in which they are walked.
pub fn active_space_on_display(topology: &RawTopologySnapshot, display_index: usize) -> (result:
    Option<u64>)
    ensures
        is_space_of_display(*topology, display_index, result),
{
    for space_id in walk: topology.active_space_ids.iter()
        invariant
            walk.seq().unref().to_set() == topology.active_space_ids@,
            forall|i: int|
                0 <= i < walk.index() ==> !active_on_display(
                    *topology,
                    display_index,
                    *#[trigger] walk.seq()[i],
                ),
    {
        assert(walk.seq().unref()[walk.index()] == *space_id);
        assert(walk.seq().unref().to_set().contains(*space_id));
        if display_index_for_space(topology, *space_id) == Some(display_index) {
            return Some(*space_id);
        }
    }
    None
}

/// The identifiers of the windows listed for space `space_id`.
pub open spec fn ids_in_space(topology: RawTopologySnapshot, space_id: u64) -> Set<u64> {
    if topology.active_space_ids@.contains(space_id) {
        Set::new(|id: u64| lists_window(topology.active_space_windows@, space_id, id))
    } else {
        Set::new(|id: u64| lists_id(topology.inactive_space_window_ids@, space_id, id))
    }
}

/// Collects the identifiers of the windows of a space.
pub fn window_ids_for_space(topology: &RawTopologySnapshot, space_id: u64) -> (result: HashSet<u64>)
    ensures
        result@ == ids_in_space(*topology, space_id),
{
    if topology.active_space_ids.contains(&space_id) {
        let result: HashSet<u64> = match topology.active_space_windows.get(&space_id) {
            Some(windows) => raw_window_ids(windows),
            None => HashSet::new(),
        };
        assert(result@ =~= ids_in_space(*topology, space_id));
        result
    } else {
        let result: HashSet<u64> = match topology.inactive_space_window_ids.get(&space_id) {
            Some(window_ids) => ids::set_of(window_ids),
            None => HashSet::new(),
        };
        assert(result@ =~= ids_in_space(*topology, space_id));
        result
    }
}

fn raw_window_ids(windows: &Vec<RawWindow>) -> (result: HashSet<u64>)
    ensures
        forall|id: u64|
            #[trigger] result@.contains(id) <==> exists|i: int|
                0 <= i < windows@.len() && (#[trigger] windows@[i]).id == id,
{
    let mut result: HashSet<u64> = HashSet::new();
    let mut at: usize = 0;
    while at < windows.len()
        invariant
            at <= windows.len(),
            forall|id: u64|
                #[trigger] result@.contains(id) <==> exists|i: int|
                    0 <= i < at && (#[trigger] windows@[i]).id == id,
        decreases windows.len() - at,
    {
        let ghost before = result@;
        result.insert(windows[at].id);
        proof {
            assert forall|id: u64| #[trigger] result@.contains(id) <==> exists|i: int|
                0 <= i < at + 1 && (#[trigger] windows@[i]).id == id by {
                if before.contains(id) {
                    let i = choose|i: int| 0 <= i < at && (#[trigger] windows@[i]).id == id;
                    assert(windows@[i].id == id);
                }
                if windows@[at as int].id == id {
                    assert(result@.contains(id));
                }
            }
        }
        at += 1;
    }
    result
}

/// How far a frame reaches towards `direction`, then how near the front its window lies.
pub open spec fn raw_edge_rank(window: RawWindow, direction: NativeDirection) -> select::Rank {
    (
        snapshot::bounds_reach(direction, window.frame->0),
        -snapshot::order_place(window.visible_index),
        window.level as int,
        -(window.id as int),
    )
}

/// Edge ranks of the windows that have a frame.
pub open spec fn raw_edge_ranks(windows: Seq<RawWindow>, direction: NativeDirection) -> Seq<
    Option<select::Rank>,
> {
    Seq::new(
        windows.len(),
        |i: int|
            if windows[i].frame is Some {
                Some(raw_edge_rank(windows[i], direction))
            } else {
                None
            },
    )
}

/// Front-to-back ranks of all windows.
pub open spec fn raw_front_ranks(windows: Seq<RawWindow>) -> Seq<Option<select::Rank>> {
    Seq::new(windows.len(), |i: int| Some(front_rank(windows[i])))
}

/// A window takes part in directional focus if it lies on the ordinary level.
pub open spec fn is_focusable() -> spec_fn(RawWindow) -> bool {
    |window: RawWindow| window.level == 0
}

/// The outermost of the windows that have a frame.
pub open spec fn edge_window(windows: Seq<RawWindow>, direction: NativeDirection) -> Option<u64> {
    match select::last_greatest(raw_edge_ranks(windows, direction)) {
        Some(at) => Some(windows[at].id),
        None => None,
    }
}

/// The window to focus on entering a space towards `direction`: the outermost ordinary window,
/// and if no ordinary window has a frame, the frontmost.
pub open spec fn best_window(direction: NativeDirection, windows: Seq<RawWindow>) -> Option<u64> {
    let focusable = windows.filter(is_focusable());
    match edge_window(focusable, direction) {
        Some(id) => Some(id),
        None => match select::first_least(raw_front_ranks(focusable)) {
            Some(at) => Some(focusable[at].id),
            None => None,
        },
    }
}

/// Tells whether a window takes part in directional focus.
pub fn is_directional_focus_window(window: &RawWindow) -> (result: bool)
    ensures
        result == (window.level == 0),
{
    window.level == 0
}

/// Finds the outermost of the windows that have a frame.
pub fn edge_window_id_in_direction(windows: &Vec<RawWindow>, direction: NativeDirection) -> (result:
    Option<u64>)
    ensures
        result == edge_window(windows@, direction),
{
    let ghost ranks = raw_edge_ranks(windows@, direction);
    let mut keys: Vec<Option<Key>> = Vec::new();
    let mut at: usize = 0;
    while at < windows.len()
        invariant
            at <= windows.len(),
            ranks == raw_edge_ranks(windows@, direction),
            keys.len() == at,
            forall|i: int| 0 <= i < at ==> #[trigger] select::ranks_of(keys@)[i] == ranks[i],
        decreases windows.len() - at,
    {
        let ghost before = select::ranks_of(keys@);
        let window: &RawWindow = &windows[at];
        match window.frame {
            Some(frame) => {
                let reach: i64 = topology::reach_towards(
                    outer_direction_from_native(direction),
                    rect_from_native(frame),
                );
                keys.push(
                    Some(
                        Key {
                            first: reach as i128,
                            second: -order_key(window.visible_index),
                            third: window.level as i128,
                            fourth: -(window.id as i128),
                        },
                    ),
                );
            },
            None => {
                keys.push(None);
            },
        }
        assert forall|i: int| 0 <= i < at implies #[trigger] select::ranks_of(keys@)[i]
            == before[i] by {}
        at += 1;
    }
    assert(select::ranks_of(keys@) =~= ranks);
    proof {
        select::choices_are_optimal(ranks);
    }
    match select::last_greatest_key(&keys) {
        Some(at) => Some(windows[at].id),
        None => None,
    }
}

/// Finds the window to focus on entering a space towards `direction`.
pub fn best_window_id_from_windows(direction: NativeDirection, windows: &Vec<RawWindow>) -> (result:
    Option<u64>)
    ensures
        result == best_window(direction, windows@),
{
    let mut focusable: Vec<RawWindow> = Vec::new();
    let mut keys: Vec<Option<Key>> = Vec::new();
    let mut at: usize = 0;
    assert(windows@.take(0).filter(is_focusable()) =~= Seq::empty()) by {
        reveal(Seq::filter);
    }
    while at < windows.len()
        invariant
            at <= windows.len(),
            focusable@ == windows@.take(at as int).filter(is_focusable()),
            keys.len() == focusable.len(),
            forall|i: int|
                0 <= i < keys.len() ==> #[trigger] keys@[i] is Some && keys@[i]->0@ == front_rank(
                    focusable@[i],
                ),
        decreases windows.len() - at,
    {
        proof {
            select::lemma_filter_step(windows@, is_focusable(), at as int);
        }
        if is_directional_focus_window(&windows[at]) {
            focusable.push(windows[at].clone());
            keys.push(Some(front_key(&windows[at])));
        }
        at += 1;
    }
    assert(windows@.take(windows@.len() as int) =~= windows@);
    if let Some(id) = edge_window_id_in_direction(&focusable, direction) {
        return Some(id);
    }
    assert(select::ranks_of(keys@) =~= raw_front_ranks(focusable@));
    proof {
        select::choices_are_optimal(raw_front_ranks(focusable@));
    }
    match select::first_least_key(&keys) {
        Some(at) => Some(focusable[at].id),
        None => None,
    }
}

/// `source` is a space that a switch to `target_space_id` leaves: an active space on the target's
/// display, other than the target itself.
pub open spec fn is_transition_source(
    topology: RawTopologySnapshot,
    target_space_id: u64,
    source: Option<u64>,
) -> bool {
    match display_of(topology.spaces@, target_space_id) {
        Some(display_index) => match source {
            Some(space_id) => active_on_display(topology, display_index, space_id) && space_id
                != target_space_id,
            None => active_on_display(topology, display_index, target_space_id) || forall|
                space_id: u64,
            |
                !#[trigger] active_on_display(topology, display_index, space_id),
        },
        None => source is None,
    }
}

/// `focus` is the focused window if it lies in the space `source`, and nothing otherwise.
pub open spec fn is_left_focus(
    topology: RawTopologySnapshot,
    source: Option<u64>,
    focus: Option<u64>,
) -> bool {
    let id = topology.focused_window_id->0;
    if topology.focused_window_id is Some {
        exists|space_id: Option<u64>|
            #![trigger is_space_of_window(topology, topology.focused_window_id->0, space_id)]
            is_space_of_window(topology, topology.focused_window_id->0, space_id) && focus == if space_id
                == source {
                Some(id)
            } else {
                None
            }
    } else {
        focus is None
    }
}

/// Finds the focused window that a switch leaves behind and the windows that it should show.
pub fn space_transition_window_ids(topology: &RawTopologySnapshot, target_space_id: u64) -> (result:
    (Option<u64>, HashSet<u64>))
    ensures
        exists|source: Option<u64>|
            #[trigger] is_transition_source(*topology, target_space_id, source) && is_left_focus(
                *topology,
                source,
                result.0,
            ),
        result.1@ == ids_in_space(*topology, target_space_id),
{
    let source: Option<u64> = match display_index_for_space(topology, target_space_id) {
        Some(display_index) => match active_space_on_display(topology, display_index) {
            Some(space_id) => if space_id != target_space_id {
                Some(space_id)
            } else {
                None
            },
            None => None,
        },
        None => None,
    };
    assert(is_transition_source(*topology, target_space_id, source));
    let focus: Option<u64> = match topology.focused_window_id {
        Some(id) => {
            let focus_space: Option<u64> = space_id_for_window(topology, id);
            assert(is_space_of_window(*topology, id, focus_space));
            if focus_space == source {
                Some(id)
            } else {
                None
            }
        },
        None => None,
    };
    (focus, window_ids_for_space(topology, target_space_id))
}

/// Whether a space can be acted on: it must be known, and be no space of Stage Manager.
pub open spec fn supported_target(topology: RawTopologySnapshot, space_id: u64) -> Result<
    (),
    MacosNativeOperationError,
> {
    match raw_space(topology.spaces@, space_id) {
        None => Err(MacosNativeOperationError::MissingSpace(space_id)),
        Some(space) => if space_kind(space) == SpaceKind::StageManagerOpaque {
            Err(MacosNativeOperationError::UnsupportedStageManagerSpace(space_id))
        } else {
            Ok(())
        },
    }
}

/// Refuses unknown spaces and spaces of Stage Manager.
pub fn ensure_supported_target_space(topology: &RawTopologySnapshot, space_id: u64) -> (result:
    Result<(), MacosNativeOperationError>)
    ensures
        result == supported_target(*topology, space_id),
{
    match find_raw_space(&topology.spaces, space_id) {
        None => Err(MacosNativeOperationError::MissingSpace(space_id)),
        Some(space) => if classify_space(space) == SpaceKind::StageManagerOpaque {
            Err(MacosNativeOperationError::UnsupportedStageManagerSpace(space_id))
        } else {
            Ok(())
        },
    }
}

/// The first window of a list that carries the identifier `window_id`.
pub open spec fn first_listed(windows: Seq<RawWindow>, window_id: u64) -> Option<RawWindow> {
    match select::first_set(raw_with_id(windows, window_id)) {
        Some(at) => Some(windows[at]),
        None => None,
    }
}

/// The process of the first window of a list that carries the identifier `window_id`.
pub open spec fn listed_pid(windows: Seq<RawWindow>, window_id: u64) -> Option<u32> {
    match first_listed(windows, window_id) {
        Some(window) => window.pid,
        None => None,
    }
}

fn find_listed(windows: &Vec<RawWindow>, window_id: u64) -> (result: Option<&RawWindow>)
    ensures
        match result {
            Some(window) => first_listed(windows@, window_id) == Some(*window),
            None => first_listed(windows@, window_id) is None,
        },
{
    let ghost flags = raw_with_id(windows@, window_id);
    let mut at: usize = 0;
    while at < windows.len()
        invariant
            at <= windows.len(),
            flags == raw_with_id(windows@, window_id),
            forall|i: int| 0 <= i < at ==> !#[trigger] flags[i],
        decreases windows.len() - at,
    {
        if windows[at].id == window_id {
            proof {
                select::lemma_first_set(flags, at as int);
            }
            return Some(&windows[at]);
        }
        at += 1;
    }
    proof {
        select::lemma_none_set(flags);
    }
    None
}

/// `found` is the process of window `window_id`, as an active space that lists the window gives
/// it; none where no active space does.
pub open spec fn is_pid_of_window(
    topology: RawTopologySnapshot,
    window_id: u64,
    found: Option<u32>,
) -> bool {
    if names_window(topology.active_space_windows@, window_id) {
        exists|space_id: u64|
            #[trigger] lists_window(topology.active_space_windows@, space_id, window_id) && found
                == listed_pid(topology.active_space_windows@[space_id]@, window_id)
    } else {
        found is None
    }
}

/// Finds the process of a window of an active space. Where several spaces list the window, which
/// of them decides depends on the order in which they are walked.
pub fn active_window_pid_from_topology(topology: &RawTopologySnapshot, window_id: u64) -> (result:
    Option<u32>)
    ensures
        is_pid_of_window(*topology, window_id, result),
{
    let ghost active = topology.active_space_windows@;
    for space_id in walk: topology.active_space_windows.keys()
        invariant
            active == topology.active_space_windows@,
            walk.seq().unref().to_set() == active.dom(),
            forall|i: int|
                0 <= i < walk.index() ==> !lists_window(
                    active,
                    *#[trigger] walk.seq()[i],
                    window_id,
                ),
    {
        assert(walk.seq().unref()[walk.index()] == *space_id);
        assert(walk.seq().unref().to_set().contains(*space_id));
        if let Some(windows) = topology.active_space_windows.get(space_id) {
            proof {
                select::first_set_finds_the_first(raw_with_id(windows@, window_id));
            }
            if let Some(window) = find_listed(windows, window_id) {
                assert(lists_window(active, *space_id, window_id)) by {
                    let at = select::first_set(raw_with_id(windows@, window_id))->0;
                    assert(windows@[at].id == window_id);
                }
                assert(names_window(active, window_id));
                return window.pid;
            }
            assert(!lists_window(active, *space_id, window_id)) by {
                if lists_window(active, *space_id, window_id) {
                    let i = choose|i: int|
                        0 <= i < windows@.len() && (#[trigger] windows@[i]).id == window_id;
                    assert(raw_with_id(windows@, window_id)[i]);
                }
            }
        }
    }
    assert(!names_window(active, window_id));
    None
}

/// Where a window of an active space is shown, for when it goes stale. The space is any that
/// lists the window.
pub fn active_space_focus_target_hint_from_topology(
    topology: &RawTopologySnapshot,
    window_id: u64,
) -> (result: Option<ActiveSpaceFocusTargetHint>)
    ensures
        exists|space_id: Option<u64>|
            #[trigger] is_space_of_window(*topology, window_id, space_id) && result
                == focus_target_hint(*topology, window_id, space_id),
{
    let space_id: Option<u64> = space_id_for_window(topology, window_id);
    assert(is_space_of_window(*topology, window_id, space_id));
    let Some(space_id) = space_id else {
        return None;
    };
    let Some(windows) = topology.active_space_windows.get(&space_id) else {
        return None;
    };
    match find_listed(windows, window_id) {
        Some(window) => match window.frame {
            Some(bounds) => Some(ActiveSpaceFocusTargetHint { space_id, bounds }),
            None => None,
        },
        None => None,
    }
}

/// Where window `window_id` is shown, if it lies in the active space `space_id`.
pub open spec fn focus_target_hint(
    topology: RawTopologySnapshot,
    window_id: u64,
    space_id: Option<u64>,
) -> Option<ActiveSpaceFocusTargetHint> {
    match space_id {
        Some(space_id) => match first_listed(listed_windows(topology, space_id), window_id) {
            Some(window) => match window.frame {
                Some(bounds) => Some(ActiveSpaceFocusTargetHint { space_id, bounds }),
                None => None,
            },
            None => None,
        },
        None => None,
    }
}

/// Stage Manager spaces are opaque, other tiled spaces are split views, and the rest go by their type
/// number.
pub proof fn spaces_are_known_by_their_use(space: RawSpaceRecord, kind: SpaceKind)
    requires
        call_ensures(classify_space, (&space,), kind),
    ensures
        kind is StageManagerOpaque <==> space.stage_manager_managed,
        kind is SplitView <==> !space.stage_manager_managed && (space.has_tile_layout_manager
            || space.tile_spaces@.len() != 0),
        !(kind is StageManagerOpaque) && !(kind is SplitView) ==> {
            &&& kind is Fullscreen <==> space.space_type == 4
            &&& kind is Desktop <==> space.space_type == 0
        },
        kind == space_kind(space),
{
}

/// `back` does not lie in front of `front`: not by its place on screen, at the same place not by a
/// higher level, and on the same level not by a smaller identifier.
pub open spec fn is_in_front(front: RawWindow, back: RawWindow) -> bool {
    &&& !snapshot::comes_before(back.visible_index, front.visible_index)
    &&& back.visible_index == front.visible_index ==> back.level <= front.level
    &&& back.visible_index == front.visible_index && back.level == front.level ==> front.id
        <= back.id
}

/// Arranging windows keeps every one of them, once, and puts none behind one that it lies in front
/// of.
pub proof fn windows_are_arranged_front_to_back(
    windows: Vec<RawWindow>,
    ordered: Vec<RawWindow>,
    early: int,
    late: int,
)
    requires
        call_ensures(order_active_space_windows, (&windows,), ordered),
        0 <= early < late < ordered@.len(),
    ensures
        is_in_front(ordered@[early], ordered@[late]),
        exists|order: Seq<int>|
            {
                &&& order.no_duplicates()
                &&& order.len() == windows@.len() == ordered@.len()
                &&& forall|i: int|
                    0 <= i < order.len() ==> 0 <= #[trigger] order[i] < windows@.len()
                        && ordered@[i] == windows@[order[i]]
            },
{
    let ranks = front_ranks(windows@);
    let order = select::stable_order(ranks);
    select::stable_order_is_a_sorted_permutation(ranks);
    select::lemma_stable_order_is_distinct(ranks);
    assert forall|i: int| 0 <= i < order.len() implies 0 <= #[trigger] order[i] < windows@.len()
        && ordered@[i] == windows@[order[i]] by {
        select::lemma_stable_order_in_range(ranks, i);
    }
    assert(!select::rank_lt(ranks[order[late]], ranks[order[early]]));
}

/// A window of an active space is described by its own fields and its place from the front; of one in
/// an inactive space only the identifier is known.
pub proof fn windows_are_described_by_their_fields(
    space_id: u64,
    windows: Vec<RawWindow>,
    ordered: Vec<RawWindow>,
    ids: Vec<u64>,
    active: Vec<WindowSnapshot>,
    inactive: Vec<WindowSnapshot>,
    at: int,
)
    requires
        call_ensures(order_active_space_windows, (&windows,), ordered),
        call_ensures(snapshots_for_active_space, (space_id, &windows), active),
        call_ensures(snapshots_for_inactive_space, (space_id, &ids), inactive),
    ensures
        active@.len() == ordered@.len(),
        inactive@.len() == ids@.len(),
        0 <= at < active@.len() ==> {
            let (found, window) = (active@[at], ordered@[at]);
            &&& found.id == window.id
            &&& found.pid == window.pid
            &&& found.app_id == window.app_id
            &&& found.title == window.title
            &&& found.space_id == space_id
            &&& found.order_index matches Some(index) && index == at
        },
        0 <= at < inactive@.len() ==> {
            let found = inactive@[at];
            &&& found.id == ids@[at]
            &&& found.pid is None && found.app_id is None && found.title is None
            &&& found.space_id == space_id
            &&& found.order_index is None
        },
{
    if 0 <= at < active@.len() {
        assert(at < ordered.len());
    }
}

/// How many windows one space lists.
pub open spec fn windows_listed(topology: RawTopologySnapshot, space_id: u64) -> nat {
    if topology.active_space_ids@.contains(space_id) {
        if topology.active_space_windows@.contains_key(space_id) {
            topology.active_space_windows@[space_id]@.len()
        } else {
            0
        }
    } else if topology.inactive_space_window_ids@.contains_key(space_id) {
        topology.inactive_space_window_ids@[space_id]@.len()
    } else {
        0
    }
}

/// How many windows the first `count` spaces list.
pub open spec fn windows_before(topology: RawTopologySnapshot, count: int) -> nat
    decreases count,
{
    if count <= 0 {
        0
    } else {
        windows_before(topology, count - 1) + windows_listed(
            topology,
            topology.spaces@[count - 1].managed_space_id,
        )
    }
}

proof fn lemma_windows_space_by_space(topology: RawTopologySnapshot, count: int, space: int)
    requires
        0 <= space < count <= topology.spaces@.len(),
    ensures
        native_windows(topology, count).len() == windows_before(topology, count),
        snapshots_of_spaces(topology, count).len() == windows_before(topology, count),
        windows_before(topology, space + 1) <= windows_before(topology, count),
        ({
            let id = topology.spaces@[space].managed_space_id;
            let start = windows_before(topology, space) as int;
            let end = windows_before(topology, space + 1) as int;
            &&& native_windows(topology, count).subrange(start, end) == native_space_windows(
                topology,
                id,
            )
            &&& snapshots_of_spaces(topology, count).subrange(start, end) == space_snapshots(
                topology,
                id,
            )
        }),
    decreases count,
{
    let last = topology.spaces@[count - 1].managed_space_id;
    select::stable_order_is_a_sorted_permutation(front_ranks(listed_windows(topology, last)));
    assert(native_space_windows(topology, last).len() == windows_listed(topology, last));
    assert(space_snapshots(topology, last).len() == windows_listed(topology, last));
    let start = windows_before(topology, space) as int;
    let end = windows_before(topology, space + 1) as int;
    if space < count - 1 {
        lemma_windows_space_by_space(topology, count - 1, space);
        assert(native_windows(topology, count).subrange(start, end) =~= native_windows(
            topology,
            count - 1,
        ).subrange(start, end));
        assert(snapshots_of_spaces(topology, count).subrange(start, end) =~= snapshots_of_spaces(
            topology,
            count - 1,
        ).subrange(start, end));
    } else {
        if count > 1 {
            lemma_windows_space_by_space(topology, count - 1, count - 2);
        }
        assert(native_windows(topology, count - 1).len() == start);
        assert(snapshots_of_spaces(topology, count - 1).len() == start);
        assert(native_windows(topology, count).subrange(start, end) =~= native_space_windows(
            topology,
            last,
        ));
        assert(snapshots_of_spaces(topology, count).subrange(start, end) =~= space_snapshots(
            topology,
            last,
        ));
    }
}

/// The snapshot shows every space by its own fields, as active exactly if it is listed as active, and
/// keeps the active spaces and the focus.
pub proof fn snapshots_show_every_space(
    topology: RawTopologySnapshot,
    kind: SpaceKind,
    result: NativeDesktopSnapshot,
    at: int,
)
    requires
        call_ensures(native_desktop_snapshot_from_topology, (&topology,), result),
        0 <= at < topology.spaces@.len(),
        call_ensures(classify_space, (&topology.spaces@[at],), kind),
    ensures
        result.spaces@.len() == topology.spaces@.len(),
        result.spaces@[at].id == topology.spaces@[at].managed_space_id,
        result.spaces@[at].display_index == topology.spaces@[at].display_index,
        result.spaces@[at].active <==> topology.active_space_ids@.contains(
            topology.spaces@[at].managed_space_id,
        ),
        result.spaces@[at].kind == kind,
        result.active_space_ids@ == topology.active_space_ids@,
        result.focused_window_id == topology.focused_window_id,
{
}

/// The snapshot lists the windows space by space: those of an active space from front to back with all
/// that is said of them, those of an inactive one by identifier alone.
pub proof fn snapshots_list_windows_space_by_space(
    topology: RawTopologySnapshot,
    result: NativeDesktopSnapshot,
    space: int,
    listed: Vec<RawWindow>,
    ordered: Vec<RawWindow>,
    at: int,
)
    requires
        call_ensures(native_desktop_snapshot_from_topology, (&topology,), result),
        0 <= space < topology.spaces@.len(),
        ({
            let id = topology.spaces@[space].managed_space_id;
            &&& topology.active_space_windows@.contains_key(id) ==> listed
                == topology.active_space_windows@[id]
            &&& 0 <= at < windows_listed(topology, id)
        }),
        call_ensures(order_active_space_windows, (&listed,), ordered),
    ensures
        result.windows@.len() == windows_before(topology, topology.spaces@.len() as int),
        windows_before(topology, space) + at < result.windows@.len(),
        ({
            let id = topology.spaces@[space].managed_space_id;
            let found = result.windows@[windows_before(topology, space) + at];
            &&& found.space_id == id
            &&& topology.active_space_ids@.contains(id) ==> {
                let window = ordered@[at];
                &&& found.id == window.id
                &&& found.pid == window.pid
                &&& found.app_id == window.app_id
                &&& found.title == window.title
                &&& found.bounds == window.frame
                &&& found.level == window.level
                &&& found.order_index matches Some(index) && index == at
            }
            &&& !topology.active_space_ids@.contains(id) ==> {
                &&& found.id == topology.inactive_space_window_ids@[id]@[at]
                &&& found.pid is None && found.app_id is None && found.title is None
                &&& found.bounds is None
                &&& found.level == 0
                &&& found.order_index is None
            }
        }),
{
    let id = topology.spaces@[space].managed_space_id;
    let all = native_windows(topology, topology.spaces@.len() as int);
    let start = windows_before(topology, space) as int;
    lemma_windows_space_by_space(topology, topology.spaces@.len() as int, space);
    assert(native_space_windows(topology, id)[at] == all.subrange(
        start,
        windows_before(topology, space + 1) as int,
    )[at]);
    assert(at < ordered.len() || !topology.active_space_ids@.contains(id));
}

/// Windows are described space by space, each as its own space describes it.
pub proof fn windows_are_described_space_by_space(
    topology: RawTopologySnapshot,
    result: Vec<WindowSnapshot>,
    space: int,
    listed: Vec<RawWindow>,
    ids: Vec<u64>,
    active: Vec<WindowSnapshot>,
    inactive: Vec<WindowSnapshot>,
    at: int,
)
    requires
        call_ensures(window_snapshots_from_topology, (&topology,), result),
        0 <= space < topology.spaces@.len(),
        ({
            let id = topology.spaces@[space].managed_space_id;
            &&& topology.active_space_windows@.contains_key(id) ==> listed
                == topology.active_space_windows@[id]
            &&& topology.inactive_space_window_ids@.contains_key(id) ==> ids
                == topology.inactive_space_window_ids@[id]
            &&& 0 <= at < windows_listed(topology, id)
            &&& call_ensures(snapshots_for_active_space, (id, &listed), active)
            &&& call_ensures(snapshots_for_inactive_space, (id, &ids), inactive)
        }),
    ensures
        result@.len() == windows_before(topology, topology.spaces@.len() as int),
        windows_before(topology, space) + at < result@.len(),
        result@[windows_before(topology, space) + at] == if topology.active_space_ids@.contains(
            topology.spaces@[space].managed_space_id,
        ) {
            active@[at]
        } else {
            inactive@[at]
        },
{
    let id = topology.spaces@[space].managed_space_id;
    let all = snapshots_of_spaces(topology, topology.spaces@.len() as int);
    let start = windows_before(topology, space) as int;
    lemma_windows_space_by_space(topology, topology.spaces@.len() as int, space);
    assert(space_snapshots(topology, id)[at] == all.subrange(
        start,
        windows_before(topology, space + 1) as int,
    )[at]);
}

/// A window of an active space is found as the frontmost that carries its identifier, with its own
/// fields and its place from the front.
pub proof fn active_windows_are_found_with_their_place(
    space_id: u64,
    windows: Vec<RawWindow>,
    window_id: u64,
    ordered: Vec<RawWindow>,
    result: Option<WindowSnapshot>,
)
    requires
        call_ensures(order_active_space_windows, (&windows,), ordered),
        call_ensures(active_window_snapshot, (space_id, &windows, window_id), result),
    ensures
        match result {
            Some(found) => {
                &&& found.space_id == space_id
                &&& found.id == window_id
                &&& found.order_index matches Some(at)
                &&& at < ordered@.len()
                &&& ordered@[at as int].id == window_id
                &&& found.pid == ordered@[at as int].pid
                &&& found.app_id == ordered@[at as int].app_id
                &&& found.title == ordered@[at as int].title
                &&& forall|i: int| 0 <= i < at ==> (#[trigger] ordered@[i]).id != window_id
            },
            None => forall|i: int|
                0 <= i < windows@.len() ==> (#[trigger] windows@[i]).id != window_id,
        },
        result == snapshot_in(space_id, windows@, window_id),
{
    let flags = raw_with_id(ordered@, window_id);
    select::first_set_finds_the_first(flags);
    assert forall|i: int| 0 <= i < ordered@.len() implies flags[i] == ((#[trigger] ordered@[i]).id
        == window_id) by {}
    listed_windows_are_found(space_id, windows@, window_id);
    if let Some(at) = select::first_set(flags) {
        assert(at < ordered.len());
    }
}

/// Wherever a window is listed there is a focus. It is on the window that is named, where an active
/// space lists that, and otherwise on one that no window of any active space lies in front of.
pub proof fn the_focus_lies_in_an_active_space(
    windows: HashMap<u64, Vec<RawWindow>>,
    focused: Option<u64>,
    result: Result<WindowSnapshot, MacosNativeProbeError>,
    space_id: u64,
    at: int,
)
    requires
        call_ensures(focused_window_from_active_space_windows, (&windows, focused), result),
        windows@.contains_key(space_id),
        0 <= at < windows@[space_id]@.len(),
    ensures
        result matches Ok(found) && windows@.contains_key(found.space_id) && exists|i: int|
            #![trigger windows@[found.space_id]@[i]]
            {
                let (window, other) = (windows@[found.space_id]@[i], windows@[space_id]@[at]);
                &&& 0 <= i < windows@[found.space_id]@.len()
                &&& window.id == found.id
                &&& focused == Some(other.id) ==> found.id == other.id
                &&& focused == Some(found.id) || is_in_front(window, other)
            },
{
    if focused == Some(windows@[space_id]@[at].id) {
        assert(lists_window(windows@, space_id, windows@[space_id]@[at].id));
    }
    let found = result->Ok_0;
    let held = windows@[found.space_id]@;
    listed_windows_are_found(found.space_id, held, found.id);
    let i = if is_listed(windows@, focused) {
        choose|i: int| 0 <= i < held.len() && held[i].id == found.id
    } else {
        choose|i: int| is_frontmost(windows@, found.space_id, i) && held[i].id == found.id
    };
    assert(held[i] == held[i]);
    assert(!is_listed(windows@, focused) ==> !select::rank_lt(
        front_rank(windows@[space_id]@[at]),
        front_rank(held[i]),
    ));
}

/// The focused window of a topology is that of its active spaces, described with its place in its
/// space; without any window in them there is none.
pub proof fn the_focus_is_described_by_its_space(
    topology: RawTopologySnapshot,
    result: Result<WindowSnapshot, MacosNativeProbeError>,
    window: Option<WindowSnapshot>,
)
    requires
        call_ensures(focused_window_from_topology, (&topology,), result),
        result matches Ok(found) ==> call_ensures(
            active_window_snapshot,
            (
                found.space_id,
                &topology.active_space_windows@[found.space_id],
                found.id,
            ),
            window,
        ),
    ensures
        result matches Ok(found) ==> window == Some(found),
        result matches Err(error) ==> error is MissingFocusedWindow && forall|space_id: u64|
            topology.active_space_windows@.contains_key(space_id) ==> (
            #[trigger] topology.active_space_windows@[space_id])@.len() == 0,
{
}

/// A window lies in an active space that lists it, in an inactive one only if no active one does, and
/// nowhere if none does.
pub proof fn windows_lie_where_they_are_listed(
    topology: RawTopologySnapshot,
    window_id: u64,
    result: Option<u64>,
    space_id: u64,
    at: int,
)
    requires
        call_ensures(space_id_for_window, (&topology, window_id), result),
    ensures
        topology.active_space_windows@.contains_key(space_id) && 0 <= at
            < topology.active_space_windows@[space_id]@.len()
            && topology.active_space_windows@[space_id]@[at].id == window_id ==> (result matches Some(
            found,
        ) && topology.active_space_windows@.contains_key(found) && exists|i: int|
            0 <= i < topology.active_space_windows@[found]@.len() && (
            #[trigger] topology.active_space_windows@[found]@[i]).id == window_id),
        topology.inactive_space_window_ids@.contains_key(space_id) && 0 <= at
            < topology.inactive_space_window_ids@[space_id]@.len()
            && topology.inactive_space_window_ids@[space_id]@[at] == window_id ==> result is Some,
        result matches Some(found) ==> (topology.active_space_windows@.contains_key(found)
            && exists|i: int|
            0 <= i < topology.active_space_windows@[found]@.len() && (
            #[trigger] topology.active_space_windows@[found]@[i]).id == window_id) || (
        topology.inactive_space_window_ids@.contains_key(found)
            && topology.inactive_space_window_ids@[found]@.contains(window_id)),
{
    if topology.active_space_windows@.contains_key(space_id) && 0 <= at
        < topology.active_space_windows@[space_id]@.len()
        && topology.active_space_windows@[space_id]@[at].id == window_id {
        assert(lists_window(topology.active_space_windows@, space_id, window_id));
    }
    if topology.inactive_space_window_ids@.contains_key(space_id) && 0 <= at
        < topology.inactive_space_window_ids@[space_id]@.len()
        && topology.inactive_space_window_ids@[space_id]@[at] == window_id {
        assert(lists_id(topology.inactive_space_window_ids@, space_id, window_id));
    }
}

/// A space is shown on the display of the first record that carries its identifier.
pub proof fn spaces_are_shown_where_they_are_recorded(
    topology: RawTopologySnapshot,
    space_id: u64,
    result: Option<usize>,
)
    requires
        call_ensures(display_index_for_space, (&topology, space_id), result),
    ensures
        match result {
            Some(display_index) => exists|at: int|
                0 <= at < topology.spaces@.len() && (
                #[trigger] topology.spaces@[at]).managed_space_id == space_id
                    && topology.spaces@[at].display_index == display_index && forall|i: int|
                    0 <= i < at ==> (#[trigger] topology.spaces@[i]).managed_space_id != space_id,
            None => forall|i: int|
                0 <= i < topology.spaces@.len() ==> (#[trigger] topology.spaces@[i]).managed_space_id
                    != space_id,
        },
        result == display_of(topology.spaces@, space_id),
{
    let flags = raw_spaces_with_id(topology.spaces@, space_id);
    select::first_set_finds_the_first(flags);
    assert forall|i: int| 0 <= i < topology.spaces@.len() implies flags[i] == ((
    #[trigger] topology.spaces@[i]).managed_space_id == space_id) by {}
    if let Some(at) = select::first_set(flags) {
        assert(topology.spaces@[at].managed_space_id == space_id);
    }
}

/// The active space of a display is one that is active and shown there, and there is one whenever
/// some space is.
pub proof fn displays_show_their_active_space(
    topology: RawTopologySnapshot,
    display_index: usize,
    result: Option<u64>,
    other: u64,
    found_display: Option<usize>,
    other_display: Option<usize>,
)
    requires
        call_ensures(active_space_on_display, (&topology, display_index), result),
        result matches Some(space_id) ==> call_ensures(
            display_index_for_space,
            (&topology, space_id),
            found_display,
        ),
        call_ensures(display_index_for_space, (&topology, other), other_display),
    ensures
        result matches Some(space_id) ==> topology.active_space_ids@.contains(space_id)
            && found_display == Some(display_index),
        topology.active_space_ids@.contains(other) && other_display == Some(display_index)
            ==> result is Some,
{
    assert(active_on_display(topology, display_index, other) <==> (
    topology.active_space_ids@.contains(other) && other_display == Some(display_index)));
}

/// The windows of a space are those that it lists as an active or as an inactive one.
pub proof fn spaces_hold_the_windows_they_list(
    topology: RawTopologySnapshot,
    space_id: u64,
    result: HashSet<u64>,
    id: u64,
)
    requires
        call_ensures(window_ids_for_space, (&topology, space_id), result),
    ensures
        topology.active_space_ids@.contains(space_id) ==> (result@.contains(id) <==> (
        topology.active_space_windows@.contains_key(space_id) && exists|i: int|
            0 <= i < topology.active_space_windows@[space_id]@.len() && (
            #[trigger] topology.active_space_windows@[space_id]@[i]).id == id)),
        !topology.active_space_ids@.contains(space_id) ==> (result@.contains(id) <==> (
        topology.inactive_space_window_ids@.contains_key(space_id)
            && topology.inactive_space_window_ids@[space_id]@.contains(id))),
        result@ == ids_in_space(topology, space_id),
{
}

/// `window` is to be preferred to `other` at an edge: `other` neither lies further out, nor equally
/// far and in front.
pub open spec fn is_at_the_edge(
    window: RawWindow,
    other: RawWindow,
    direction: NativeDirection,
) -> bool {
    let (frame, rest) = (window.frame->0, other.frame->0);
    &&& !snapshot::reaches_past(rest, frame, direction)
    &&& !snapshot::reaches_past(frame, rest, direction) ==> is_in_front(window, other)
}

proof fn lemma_edge_window(windows: Seq<RawWindow>, direction: NativeDirection, at: int)
    requires
        0 <= at < windows.len(),
    ensures
        windows[at].frame is Some ==> edge_window(windows, direction) is Some,
        edge_window(windows, direction) matches Some(id) ==> exists|best: int|
            0 <= best < windows.len() && (#[trigger] windows[best]).id == id
                && windows[best].frame is Some && (windows[at].frame is Some ==> is_at_the_edge(
                windows[best],
                windows[at],
                direction,
            )),
{
    let ranks = raw_edge_ranks(windows, direction);
    select::choices_are_optimal(ranks);
    assert(ranks[at] == if windows[at].frame is Some {
        Some(raw_edge_rank(windows[at], direction))
    } else {
        None
    });
    if let Some(best) = select::last_greatest(ranks) {
        assert(ranks[best] is Some);
        assert(windows[best].frame is Some);
    }
}

/// At an edge the window with a frame is found that reaches furthest out, the frontmost of those that
/// reach equally far.
pub proof fn the_outermost_window_is_at_the_edge(
    windows: Vec<RawWindow>,
    direction: NativeDirection,
    result: Option<u64>,
    at: int,
)
    requires
        call_ensures(edge_window_id_in_direction, (&windows, direction), result),
        0 <= at < windows@.len(),
    ensures
        windows@[at].frame is Some ==> result is Some,
        result matches Some(id) ==> exists|best: int|
            0 <= best < windows@.len() && (#[trigger] windows@[best]).id == id
                && windows@[best].frame is Some && (windows@[at].frame is Some ==> is_at_the_edge(
                windows@[best],
                windows@[at],
                direction,
            )),
{
    lemma_edge_window(windows@, direction, at);
}

/// A space is entered at the ordinary window that reaches furthest out; where no ordinary window has a
/// frame, at the frontmost of them.
pub proof fn spaces_are_entered_at_the_edge(
    windows: Vec<RawWindow>,
    direction: NativeDirection,
    result: Option<u64>,
    at: int,
)
    requires
        call_ensures(best_window_id_from_windows, (direction, &windows), result),
        0 <= at < windows@.len(),
        windows@[at].level == 0,
    ensures
        result matches Some(id) && exists|best: int|
            #![trigger windows@[best]]
            {
                let (window, other) = (windows@[best], windows@[at]);
                &&& 0 <= best < windows@.len()
                &&& window.id == id
                &&& window.level == 0
                &&& other.frame is Some ==> window.frame is Some && is_at_the_edge(
                    window,
                    other,
                    direction,
                )
                &&& window.frame is None ==> is_in_front(window, other)
            },
{
    let focusable = windows@.filter(is_focusable());
    select::lemma_filter_keeps(windows@, is_focusable());
    assert(is_focusable()(windows@[at]));
    assert(focusable.contains(windows@[at]));
    let place = choose|i: int| 0 <= i < focusable.len() && focusable[i] == windows@[at];
    lemma_edge_window(focusable, direction, place);
    let ranks = raw_front_ranks(focusable);
    select::choices_are_optimal(ranks);
    assert(ranks[place] is Some);
    let found = match edge_window(focusable, direction) {
        Some(id) => choose|best: int|
            0 <= best < focusable.len() && (#[trigger] focusable[best]).id == id
                && focusable[best].frame is Some && (focusable[place].frame is Some
                ==> is_at_the_edge(focusable[best], focusable[place], direction)),
        None => select::first_least(ranks)->0,
    };
    assert(ranks[found] is Some);
    assert(windows@.contains(focusable[found]) && is_focusable()(focusable[found]));
    let best = choose|i: int| 0 <= i < windows@.len() && windows@[i] == focusable[found];
    assert(windows@[best].id == result->0);
}

/// Without an ordinary window a space is entered at none.
pub proof fn spaces_without_ordinary_windows_are_not_entered(
    windows: Vec<RawWindow>,
    direction: NativeDirection,
    result: Option<u64>,
)
    requires
        call_ensures(best_window_id_from_windows, (direction, &windows), result),
        forall|i: int| 0 <= i < windows@.len() ==> (#[trigger] windows@[i]).level != 0,
    ensures
        result is None,
{
    let focusable = windows@.filter(is_focusable());
    select::lemma_filter_keeps(windows@, is_focusable());
    if focusable.len() > 0 {
        assert(windows@.contains(focusable[0]) && is_focusable()(focusable[0]));
    }
    select::choices_are_optimal(raw_edge_ranks(focusable, direction));
    select::choices_are_optimal(raw_front_ranks(focusable));
}

/// A switch leaves the focused window behind only where that lies in the space that the switch leaves
/// or, if it leaves none, in no space. The windows to be shown are those of the target.
pub proof fn switches_leave_the_focus_of_their_source(
    topology: RawTopologySnapshot,
    target_space_id: u64,
    result: (Option<u64>, HashSet<u64>),
    shown: HashSet<u64>,
)
    requires
        call_ensures(space_transition_window_ids, (&topology, target_space_id), result),
        call_ensures(window_ids_for_space, (&topology, target_space_id), shown),
    ensures
        result.1@ == shown@,
        result.0 is Some ==> result.0 == topology.focused_window_id,
        result.0 matches Some(id) ==> exists|source: Option<u64>| #[trigger]
            is_space_of_window(topology, id, source) && match source {
                Some(space_id) => space_id != target_space_id
                    && topology.active_space_ids@.contains(space_id) && display_of(
                    topology.spaces@,
                    space_id,
                ) is Some && display_of(topology.spaces@, space_id) == display_of(
                    topology.spaces@,
                    target_space_id,
                ),
                None => true,
            },
{
}

/// A space can be acted on if it is known and not one of Stage Manager; both refusals name the space.
pub proof fn only_known_ordinary_spaces_are_acted_on(
    topology: RawTopologySnapshot,
    space_id: u64,
    display: Option<usize>,
    result: Result<(), MacosNativeOperationError>,
)
    requires
        call_ensures(ensure_supported_target_space, (&topology, space_id), result),
        call_ensures(display_index_for_space, (&topology, space_id), display),
    ensures
        display is None <==> result == Err::<(), MacosNativeOperationError>(
            MacosNativeOperationError::MissingSpace(space_id),
        ),
        display is Some ==> exists|at: int|
            0 <= at < topology.spaces@.len() && (#[trigger] topology.spaces@[at]).managed_space_id
                == space_id && (forall|i: int|
                0 <= i < at ==> (#[trigger] topology.spaces@[i]).managed_space_id != space_id)
                && result == if topology.spaces@[at].stage_manager_managed {
                Err::<(), MacosNativeOperationError>(
                    MacosNativeOperationError::UnsupportedStageManagerSpace(space_id),
                )
            } else {
                Ok::<(), MacosNativeOperationError>(())
            },
{
    spaces_are_shown_where_they_are_recorded(topology, space_id, display);
    let flags = raw_spaces_with_id(topology.spaces@, space_id);
    select::first_set_finds_the_first(flags);
    assert forall|i: int| 0 <= i < topology.spaces@.len() implies flags[i] == ((
    #[trigger] topology.spaces@[i]).managed_space_id == space_id) by {}
    if let Some(at) = select::first_set(flags) {
        assert(topology.spaces@[at].managed_space_id == space_id);
    }
}

/// The process of a window is that of the first that carries its identifier in an active space that
/// lists it; a window that no active space lists has none.
pub proof fn processes_are_those_of_listed_windows(
    topology: RawTopologySnapshot,
    window_id: u64,
    result: Option<u32>,
)
    requires
        call_ensures(active_window_pid_from_topology, (&topology, window_id), result),
    ensures
        (exists|space_id: u64, at: int|
            #![trigger topology.active_space_windows@[space_id]@[at]]
            {
                let windows = topology.active_space_windows@[space_id]@;
                &&& topology.active_space_windows@.contains_key(space_id)
                &&& 0 <= at < windows.len()
                &&& windows[at].id == window_id
                &&& forall|i: int| 0 <= i < at ==> (#[trigger] windows[i]).id != window_id
                &&& result == windows[at].pid
            }) || (result is None && forall|space_id: u64, at: int|
            topology.active_space_windows@.contains_key(space_id) && 0 <= at
                < topology.active_space_windows@[space_id]@.len() ==> (
            #[trigger] topology.active_space_windows@[space_id]@[at]).id != window_id),
{
    let map = topology.active_space_windows@;
    if names_window(map, window_id) {
        let space_id = choose|space_id: u64|
            #[trigger] lists_window(map, space_id, window_id) && result == listed_pid(
                map[space_id]@,
                window_id,
            );
        lemma_first_listed(map[space_id]@, window_id);
        let at = choose|at: int|
            0 <= at < map[space_id]@.len() && (#[trigger] map[space_id]@[at]).id == window_id && (
            forall|i: int| 0 <= i < at ==> (#[trigger] map[space_id]@[i]).id != window_id)
                && first_listed(map[space_id]@, window_id) == Some(map[space_id]@[at]);
        assert(map[space_id]@[at].id == window_id);
    } else {
        assert forall|space_id: u64, at: int|
            map.contains_key(space_id) && 0 <= at < map[space_id]@.len() implies (
        #[trigger] map[space_id]@[at]).id != window_id by {
            if map[space_id]@[at].id == window_id {
                assert(lists_window(map, space_id, window_id));
            }
        }
    }
}

proof fn lemma_first_listed(windows: Seq<RawWindow>, window_id: u64)
    ensures
        match first_listed(windows, window_id) {
            Some(window) => exists|at: int|
                0 <= at < windows.len() && (#[trigger] windows[at]).id == window_id && (forall|
                    i: int,
                |
                    0 <= i < at ==> (#[trigger] windows[i]).id != window_id) && first_listed(
                    windows,
                    window_id,
                ) == Some(windows[at]),
            None => forall|i: int|
                0 <= i < windows.len() ==> (#[trigger] windows[i]).id != window_id,
        },
{
    let flags = raw_with_id(windows, window_id);
    select::first_set_finds_the_first(flags);
    assert forall|i: int| 0 <= i < windows.len() implies flags[i] == ((#[trigger] windows[i]).id
        == window_id) by {}
    if let Some(at) = select::first_set(flags) {
        assert(windows[at].id == window_id);
    }
}

/// A hint names a space that lists the window, and the frame of the first window there that carries
/// its identifier.
pub proof fn hints_say_where_the_window_is_shown(
    topology: RawTopologySnapshot,
    window_id: u64,
    result: Option<ActiveSpaceFocusTargetHint>,
    listing: u64,
    place: int,
)
    requires
        call_ensures(active_space_focus_target_hint_from_topology, (&topology, window_id), result),
    ensures
        result matches Some(hint) ==> topology.active_space_windows@.contains_key(hint.space_id)
            && exists|at: int|
            #![trigger topology.active_space_windows@[hint.space_id]@[at]]
            {
                let windows = topology.active_space_windows@[hint.space_id]@;
                &&& 0 <= at < windows.len()
                &&& windows[at].id == window_id
                &&& forall|i: int| 0 <= i < at ==> (#[trigger] windows[i]).id != window_id
                &&& windows[at].frame == Some(hint.bounds)
            },
        (forall|space_id: u64, at: int|
            topology.active_space_windows@.contains_key(space_id) && 0 <= at
                < topology.active_space_windows@[space_id]@.len() && (
            #[trigger] topology.active_space_windows@[space_id]@[at]).id == window_id
                ==> topology.active_space_windows@[space_id]@[at].frame is Some)
            && topology.active_space_windows@.contains_key(listing) && 0 <= place
            < topology.active_space_windows@[listing]@.len()
            && topology.active_space_windows@[listing]@[place].id == window_id ==> result is Some,
{
    let map = topology.active_space_windows@;
    if map.contains_key(listing) && 0 <= place < map[listing]@.len() && map[listing]@[place].id
        == window_id {
        assert(lists_window(map, listing, window_id));
    }
    let space_id = choose|space_id: Option<u64>|
        #[trigger] is_space_of_window(topology, window_id, space_id) && result
            == focus_target_hint(topology, window_id, space_id);
    if let Some(space_id) = space_id {
        let windows = listed_windows(topology, space_id);
        lemma_first_listed(windows, window_id);
        if let Some(window) = first_listed(windows, window_id) {
            let at = choose|at: int|
                0 <= at < windows.len() && (#[trigger] windows[at]).id == window_id && (forall|
                    i: int,
                |
                    0 <= i < at ==> (#[trigger] windows[i]).id != window_id) && first_listed(
                    windows,
                    window_id,
                ) == Some(windows[at]);
            assert(map.contains_key(space_id) && windows == map[space_id]@);
            assert(map[space_id]@[at].id == window_id && windows[at] == window);
            assert forall|i: int| 0 <= i < at implies (
            #[trigger] map[space_id]@[i]).id != window_id by {
                assert(windows[i].id != window_id);
            }
            if let Some(hint) = result {
                assert(map[hint.space_id]@[at].frame == Some(hint.bounds));
            }
        }
    }
}

} // verus!
