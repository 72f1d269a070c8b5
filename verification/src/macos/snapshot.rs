//! Choosing windows out of a desktop snapshot.
use crate::macos::types::{
    outer_direction_from_native, rect_from_native, ActiveSpaceFocusTargetHint,
    MacosNativeProbeError, NativeBounds, NativeDesktopSnapshot,
    NativeDirection, NativeSpaceSnapshot, NativeWindowSnapshot, SpaceKind,
};
use crate::macos::types;
use crate::select;
use crate::select::Key;
use crate::topology;
use std::collections::HashSet;
use vstd::prelude::*;

verus! {

/// Where an order index sorts: windows without one come after all that have one.
pub open spec fn order_place(order_index: Option<usize>) -> int {
    match order_index {
        Some(index) => index as int,
        None => usize::MAX + 1,
    }
}

/// One order index lies in front of another: the smaller one, and any in front of none.
pub open spec fn comes_before(front: Option<usize>, back: Option<usize>) -> bool {
    front matches Some(front) && (back matches Some(back) ==> front < back)
}

/// Front-to-back rank of a window: by order index, then by identifier.
pub open spec fn active_rank(window: NativeWindowSnapshot) -> select::Rank {
    (order_place(window.order_index), window.id as int, 0, 0)
}

/// How far a frame reaches towards `direction`.
pub open spec fn bounds_reach(direction: NativeDirection, bounds: NativeBounds) -> int {
    topology::reach(types::outer_direction(direction), types::rect_of(bounds))
}

/// Rank of a window by how far out it lies towards `direction`; of equally far windows the
/// frontmost ranks highest.
pub open spec fn edge_rank(window: NativeWindowSnapshot, direction: NativeDirection) -> select::Rank {
    (
        bounds_reach(direction, window.bounds->0),
        -order_place(window.order_index),
        -(window.id as int),
        0,
    )
}

/// `candidate` reaches further towards `direction` than `source` does.
pub open spec fn extends(
    source: NativeBounds,
    candidate: NativeBounds,
    direction: NativeDirection,
) -> bool {
    bounds_reach(direction, candidate) > bounds_reach(direction, source)
}

/// Length of the common part of two spans.
pub open spec fn overlap_len(start_a: int, len_a: int, start_b: int, len_b: int) -> int {
    let end = if start_a + len_a < start_b + len_b {
        start_a + len_a
    } else {
        start_b + len_b
    };
    let start = if start_a > start_b {
        start_a
    } else {
        start_b
    };
    if end > start {
        end - start
    } else {
        0
    }
}

/// Area of the common part of two frames.
pub open spec fn overlap_area(left: NativeBounds, right: NativeBounds) -> int {
    overlap_len(left.x as int, left.width as int, right.x as int, right.width as int) * overlap_len(
        left.y as int,
        left.height as int,
        right.y as int,
        right.height as int,
    )
}

/// Half of a length, rounded towards zero.
pub open spec fn half(len: int) -> int {
    if len >= 0 {
        len / 2
    } else {
        -(-len / 2)
    }
}

/// Squared distance between the centres of two frames.
pub open spec fn center_distance_sq(left: NativeBounds, right: NativeBounds) -> int {
    let dx = (left.x + half(left.width as int)) - (right.x + half(right.width as int));
    let dy = (left.y + half(left.height as int)) - (right.y + half(right.height as int));
    dx * dx + dy * dy
}

/// Rank of a window by how well it covers `target`: larger overlap first, then smaller centre
/// distance, then further to the front.
pub open spec fn match_rank(target: NativeBounds, window: NativeWindowSnapshot) -> select::Rank {
    (
        overlap_area(target, window.bounds->0),
        -center_distance_sq(target, window.bounds->0),
        -order_place(window.order_index),
        -(window.id as int),
    )
}

/// Which windows carry the identifier `id`.
pub open spec fn with_id(windows: Seq<NativeWindowSnapshot>, id: u64) -> Seq<bool> {
    Seq::new(windows.len(), |i: int| windows[i].id == id)
}

/// The first window with the identifier `id`.
pub open spec fn window_with_id(
    windows: Seq<NativeWindowSnapshot>,
    id: u64,
) -> Option<NativeWindowSnapshot> {
    match select::first_set(with_id(windows, id)) {
        Some(at) => Some(windows[at]),
        None => None,
    }
}

/// Which spaces carry the identifier `id`.
pub open spec fn spaces_with_id(spaces: Seq<NativeSpaceSnapshot>, id: u64) -> Seq<bool> {
    Seq::new(spaces.len(), |i: int| spaces[i].id == id)
}

/// The first space with the identifier `id`.
pub open spec fn space_with_id(spaces: Seq<NativeSpaceSnapshot>, id: u64) -> Option<
    NativeSpaceSnapshot,
> {
    match select::first_set(spaces_with_id(spaces, id)) {
        Some(at) => Some(spaces[at]),
        None => None,
    }
}

/// Front-to-back ranks of the windows that lie in an active space.
pub open spec fn active_ranks(windows: Seq<NativeWindowSnapshot>, active: Set<u64>) -> Seq<
    Option<select::Rank>,
> {
    Seq::new(
        windows.len(),
        |i: int|
            if active.contains(windows[i].space_id) {
                Some(active_rank(windows[i]))
            } else {
                None
            },
    )
}

/// The window that has the focus: the one the snapshot names, and if that is not among the
/// windows, the frontmost window of an active space.
pub open spec fn focused_window(snapshot: NativeDesktopSnapshot) -> Option<NativeWindowSnapshot> {
    let named = match snapshot.focused_window_id {
        Some(id) => window_with_id(snapshot.windows@, id),
        None => None,
    };
    match named {
        Some(window) => Some(window),
        None => match select::first_least(
            active_ranks(snapshot.windows@, snapshot.active_space_ids@),
        ) {
            Some(at) => Some(snapshot.windows@[at]),
            None => None,
        },
    }
}

/// `window` may take the focus from `source` in its split view.
pub open spec fn is_split_view_neighbor(
    window: NativeWindowSnapshot,
    source: NativeWindowSnapshot,
    direction: NativeDirection,
) -> bool {
    &&& window.id != source.id
    &&& window.space_id == source.space_id
    &&& window.level == 0
    &&& window.bounds is Some
    &&& extends(source.bounds->0, window.bounds->0, direction)
}

/// Edge ranks of the split-view neighbours of `source`.
pub open spec fn neighbor_ranks(
    windows: Seq<NativeWindowSnapshot>,
    source: NativeWindowSnapshot,
    direction: NativeDirection,
) -> Seq<Option<select::Rank>> {
    Seq::new(
        windows.len(),
        |i: int|
            if is_split_view_neighbor(windows[i], source, direction) {
                Some(edge_rank(windows[i], direction))
            } else {
                None
            },
    )
}

/// The window that a step in `direction` from the window `source_id` leads to inside its split
/// view: the outermost neighbour.
pub open spec fn split_view_target(
    snapshot: NativeDesktopSnapshot,
    source_id: u64,
    direction: NativeDirection,
) -> Option<u64> {
    match window_with_id(snapshot.windows@, source_id) {
        Some(source) => if in_split_view(snapshot, source) && source.bounds is Some {
            chosen_id(
                snapshot.windows@,
                select::last_greatest(neighbor_ranks(snapshot.windows@, source, direction)),
            )
        } else {
            None
        },
        None => None,
    }
}

/// The space of `window` is listed and is a split view.
pub open spec fn in_split_view(
    snapshot: NativeDesktopSnapshot,
    window: NativeWindowSnapshot,
) -> bool {
    space_with_id(snapshot.spaces@, window.space_id) matches Some(space) && space.kind
        == SpaceKind::SplitView
}

/// The identifier of the window at a chosen position.
pub open spec fn chosen_id(windows: Seq<NativeWindowSnapshot>, at: Option<int>) -> Option<u64> {
    match at {
        Some(at) => Some(windows[at].id),
        None => None,
    }
}

/// Edge ranks of the neighbours of `source` that belong to `pid` and that accessibility lists.
pub open spec fn ax_neighbor_ranks(
    windows: Seq<NativeWindowSnapshot>,
    source: NativeWindowSnapshot,
    direction: NativeDirection,
    pid: u32,
    ax_window_ids: Set<u64>,
) -> Seq<Option<select::Rank>> {
    Seq::new(
        windows.len(),
        |i: int|
            if is_split_view_neighbor(windows[i], source, direction) && windows[i].pid == Some(pid)
                && ax_window_ids.contains(windows[i].id) {
                Some(edge_rank(windows[i], direction))
            } else {
                None
            },
    )
}

/// The outermost window of the focused process that accessibility knows, seen from the focus.
pub open spec fn ax_same_pid_target(
    snapshot: NativeDesktopSnapshot,
    direction: NativeDirection,
    pid: u32,
    ax_window_ids: Set<u64>,
) -> Option<u64> {
    match focused_window(snapshot) {
        Some(focused) => if in_split_view(snapshot, focused) && focused.pid == Some(pid)
            && focused.bounds is Some {
            chosen_id(
                snapshot.windows@,
                select::last_greatest(
                    ax_neighbor_ranks(
                        snapshot.windows@,
                        focused,
                        direction,
                        pid,
                        ax_window_ids,
                    ),
                ),
            )
        } else {
            None
        },
        None => None,
    }
}

/// Computes where a window sorts front to back.
pub fn order_key(order_index: Option<usize>) -> (result: i128)
    ensures
        result == order_place(order_index),
{
    match order_index {
        Some(index) => index as i128,
        None => usize::MAX as i128 + 1,
    }
}

/// Computes the front-to-back key of a window.
pub fn active_key(window: &NativeWindowSnapshot) -> (result: Key)
    ensures
        result@ == active_rank(*window),
{
    Key { first: order_key(window.order_index), second: window.id as i128, third: 0, fourth: 0 }
}

fn reach_of(direction: NativeDirection, bounds: NativeBounds) -> (result: i64)
    ensures
        result == bounds_reach(direction, bounds),
{
    topology::reach_towards(outer_direction_from_native(direction), rect_from_native(bounds))
}

/// Computes the key of a window by how far out it lies.
pub fn edge_key(
    window: &NativeWindowSnapshot,
    bounds: NativeBounds,
    direction: NativeDirection,
) -> (result: Key)
    requires
        window.bounds == Some(bounds),
    ensures
        result@ == edge_rank(*window, direction),
{
    Key {
        first: reach_of(direction, bounds) as i128,
        second: -order_key(window.order_index),
        third: -(window.id as i128),
        fourth: 0,
    }
}

/// Tells whether `candidate` reaches further towards `direction` than `source`.
pub fn native_candidate_extends_in_direction(
    source: NativeBounds,
    candidate: NativeBounds,
    direction: NativeDirection,
) -> (result: bool)
    ensures
        result == extends(source, candidate, direction),
{
    reach_of(direction, candidate) > reach_of(direction, source)
}

/// Computes the length of the common part of two spans.
pub fn native_overlap_len(start_a: i32, len_a: i32, start_b: i32, len_b: i32) -> (result: i64)
    ensures
        result == overlap_len(start_a as int, len_a as int, start_b as int, len_b as int),
        0 <= result <= i32::MAX,
{
    let end_a: i64 = start_a as i64 + len_a as i64;
    let end_b: i64 = start_b as i64 + len_b as i64;
    let end: i64 = if end_a < end_b {
        end_a
    } else {
        end_b
    };
    let start: i64 = if start_a > start_b {
        start_a as i64
    } else {
        start_b as i64
    };
    if end > start {
        end - start
    } else {
        0
    }
}

/// Computes the area of the common part of two frames.
pub fn native_overlap_area(left: NativeBounds, right: NativeBounds) -> (result: i64)
    ensures
        result == overlap_area(left, right),
{
    let across: i64 = native_overlap_len(left.x, left.width, right.x, right.width);
    let down: i64 = native_overlap_len(left.y, left.height, right.y, right.height);
    assert(0 <= across * down <= i32::MAX * i32::MAX) by (nonlinear_arith)
        requires
            0 <= across <= i32::MAX,
            0 <= down <= i32::MAX,
    ;
    across * down
}

fn half_of(len: i32) -> (result: i128)
    ensures
        result == half(len as int),
{
    if len >= 0 {
        len as i128 / 2
    } else {
        -(-(len as i128) / 2)
    }
}

/// Computes the squared distance between the centres of two frames.
pub fn native_center_distance_sq(left: NativeBounds, right: NativeBounds) -> (result: i128)
    ensures
        result == center_distance_sq(left, right),
{
    let dx: i128 = (left.x as i128 + half_of(left.width)) - (right.x as i128 + half_of(
        right.width,
    ));
    let dy: i128 = (left.y as i128 + half_of(left.height)) - (right.y as i128 + half_of(
        right.height,
    ));
    assert(0 <= dx * dx <= 0x4_0000_0000 * 0x4_0000_0000) by (nonlinear_arith)
        requires
            -0x4_0000_0000 <= dx <= 0x4_0000_0000,
    ;
    assert(0 <= dy * dy <= 0x4_0000_0000 * 0x4_0000_0000) by (nonlinear_arith)
        requires
            -0x4_0000_0000 <= dy <= 0x4_0000_0000,
    ;
    dx * dx + dy * dy
}

/// Computes the key of a window by how well it covers `target`.
pub fn match_key(target: NativeBounds, window: &NativeWindowSnapshot, bounds: NativeBounds) -> (result:
    Key)
    requires
        window.bounds == Some(bounds),
    ensures
        result@ == match_rank(target, *window),
{
    let distance: i128 = native_center_distance_sq(target, bounds);
    assert(distance >= 0) by {
        let dx = (target.x + half(target.width as int)) - (bounds.x + half(bounds.width as int));
        let dy = (target.y + half(target.height as int)) - (bounds.y + half(bounds.height as int));
        assert(dx * dx >= 0 && dy * dy >= 0) by (nonlinear_arith);
    }
    Key {
        first: native_overlap_area(target, bounds) as i128,
        second: -distance,
        third: -order_key(window.order_index),
        fourth: -(window.id as i128),
    }
}

fn window_index(windows: &Vec<NativeWindowSnapshot>, id: u64) -> (result: Option<usize>)
    ensures
        select::position(result) == select::first_set(with_id(windows@, id)),
        result matches Some(at) ==> at < windows.len() && window_with_id(windows@, id) == Some(
            windows@[at as int],
        ),
        result is None ==> window_with_id(windows@, id) is None,
{
    let ghost flags = with_id(windows@, id);
    let mut at: usize = 0;
    while at < windows.len()
        invariant
            at <= windows.len(),
            flags == with_id(windows@, id),
            forall|i: int| 0 <= i < at ==> !#[trigger] flags[i],
        decreases windows.len() - at,
    {
        if windows[at].id == id {
            proof {
                select::lemma_first_set(flags, at as int);
            }
            return Some(at);
        }
        at += 1;
    }
    proof {
        select::lemma_none_set(flags);
    }
    None
}

/// Finds the first window with the identifier `window_id`.
pub fn native_window(snapshot: &NativeDesktopSnapshot, window_id: u64) -> (result: Option<
    &NativeWindowSnapshot,
>)
    ensures
        match result {
            Some(window) => window_with_id(snapshot.windows@, window_id) == Some(*window),
            None => window_with_id(snapshot.windows@, window_id) is None,
        },
{
    match window_index(&snapshot.windows, window_id) {
        Some(at) => Some(&snapshot.windows[at]),
        None => None,
    }
}

/// Finds the first space with the identifier `space_id`.
pub fn native_space(snapshot: &NativeDesktopSnapshot, space_id: u64) -> (result: Option<
    NativeSpaceSnapshot,
>)
    ensures
        result == space_with_id(snapshot.spaces@, space_id),
{
    let ghost flags = spaces_with_id(snapshot.spaces@, space_id);
    let mut at: usize = 0;
    while at < snapshot.spaces.len()
        invariant
            at <= snapshot.spaces.len(),
            flags == spaces_with_id(snapshot.spaces@, space_id),
            forall|i: int| 0 <= i < at ==> !#[trigger] flags[i],
        decreases snapshot.spaces.len() - at,
    {
        if snapshot.spaces[at].id == space_id {
            proof {
                select::lemma_first_set(flags, at as int);
            }
            return Some(snapshot.spaces[at]);
        }
        at += 1;
    }
    proof {
        select::lemma_none_set(flags);
    }
    None
}

fn frontmost_active_index(windows: &Vec<NativeWindowSnapshot>, active: &HashSet<u64>) -> (result:
    Option<usize>)
    ensures
        select::position(result) == select::first_least(active_ranks(windows@, active@)),
        result matches Some(at) ==> at < windows.len(),
{
    let mut keys: Vec<Option<Key>> = Vec::new();
    let mut at: usize = 0;
    while at < windows.len()
        invariant
            at <= windows.len(),
            keys.len() == at,
            forall|i: int|
                0 <= i < at ==> select::ranks_of(keys@)[i] == #[trigger] active_ranks(
                    windows@,
                    active@,
                )[i],
        decreases windows.len() - at,
    {
        let ghost before = select::ranks_of(keys@);
        if active.contains(&windows[at].space_id) {
            keys.push(Some(active_key(&windows[at])));
        } else {
            keys.push(None);
        }
        assert forall|i: int| 0 <= i < at implies select::ranks_of(keys@)[i] == before[i] by {}
        at += 1;
    }
    assert(select::ranks_of(keys@) =~= active_ranks(windows@, active@));
    let result = select::first_least_key(&keys);
    proof {
        select::choices_are_optimal(active_ranks(windows@, active@));
    }
    result
}

/// Finds the window that has the focus.
pub fn resolved_focused_native_window(snapshot: &NativeDesktopSnapshot) -> (result: Result<
    &NativeWindowSnapshot,
    MacosNativeProbeError,
>)
    ensures
        match result {
            Ok(window) => focused_window(*snapshot) == Some(*window),
            Err(error) => focused_window(*snapshot) is None && error
                == MacosNativeProbeError::MissingFocusedWindow,
        },
{
    if let Some(id) = snapshot.focused_window_id {
        if let Some(at) = window_index(&snapshot.windows, id) {
            return Ok(&snapshot.windows[at]);
        }
    }
    match frontmost_active_index(&snapshot.windows, &snapshot.active_space_ids) {
        Some(at) => Ok(&snapshot.windows[at]),
        None => Err(MacosNativeProbeError::MissingFocusedWindow),
    }
}

fn neighbor_keys(
    windows: &Vec<NativeWindowSnapshot>,
    source: &NativeWindowSnapshot,
    source_bounds: NativeBounds,
    direction: NativeDirection,
) -> (keys: Vec<Option<Key>>)
    requires
        source.bounds == Some(source_bounds),
    ensures
        select::ranks_of(keys@) == neighbor_ranks(windows@, *source, direction),
{
    let ghost ranks = neighbor_ranks(windows@, *source, direction);
    let mut keys: Vec<Option<Key>> = Vec::new();
    let mut at: usize = 0;
    while at < windows.len()
        invariant
            at <= windows.len(),
            source.bounds == Some(source_bounds),
            ranks == neighbor_ranks(windows@, *source, direction),
            keys.len() == at,
            forall|i: int|
                0 <= i < at ==> #[trigger] select::ranks_of(keys@)[i] == ranks[i],
        decreases windows.len() - at,
    {
        let ghost before = select::ranks_of(keys@);
        let key: Option<Key> = split_view_neighbor_key(
            &windows[at],
            source,
            source_bounds,
            direction,
        );
        keys.push(key);
        assert forall|i: int| 0 <= i < at implies #[trigger] select::ranks_of(keys@)[i]
            == before[i] by {}
        at += 1;
    }
    assert(select::ranks_of(keys@) =~= ranks);
    keys
}

fn split_view_neighbor_key(
    window: &NativeWindowSnapshot,
    source: &NativeWindowSnapshot,
    source_bounds: NativeBounds,
    direction: NativeDirection,
) -> (key: Option<Key>)
    requires
        source.bounds == Some(source_bounds),
    ensures
        match key {
            Some(key) => is_split_view_neighbor(*window, *source, direction) && key@ == edge_rank(
                *window,
                direction,
            ),
            None => !is_split_view_neighbor(*window, *source, direction),
        },
{
    if window.id == source.id || window.space_id != source.space_id || window.level != 0 {
        return None;
    }
    match window.bounds {
        Some(bounds) => if native_candidate_extends_in_direction(
            source_bounds,
            bounds,
            direction,
        ) {
            Some(edge_key(window, bounds, direction))
        } else {
            None
        },
        None => None,
    }
}

/// Finds where a step in `direction` from the window `source_window_id` leads inside its split
/// view.
pub fn split_view_same_space_focus_target_from_source(
    snapshot: &NativeDesktopSnapshot,
    source_window_id: u64,
    direction: NativeDirection,
) -> (result: Option<u64>)
    ensures
        result == split_view_target(*snapshot, source_window_id, direction),
{
    let Some(focused) = native_window(snapshot, source_window_id) else {
        return None;
    };
    let Some(focused_space) = native_space(snapshot, focused.space_id) else {
        return None;
    };
    if focused_space.kind != SpaceKind::SplitView {
        return None;
    }
    let Some(source_bounds) = focused.bounds else {
        return None;
    };
    let keys = neighbor_keys(&snapshot.windows, focused, source_bounds, direction);
    proof {
        select::choices_are_optimal(neighbor_ranks(snapshot.windows@, *focused, direction));
    }
    match select::last_greatest_key(&keys) {
        Some(at) => Some(snapshot.windows[at].id),
        None => None,
    }
}

/// Finds where a step in `direction` from the focus leads inside its split view.
pub fn split_view_same_space_focus_target(
    snapshot: &NativeDesktopSnapshot,
    direction: NativeDirection,
) -> (result: Option<u64>)
    ensures
        result == match focused_window(*snapshot) {
            Some(focused) => split_view_target(*snapshot, focused.id, direction),
            None => None,
        },
{
    match resolved_focused_native_window(snapshot) {
        Ok(focused) => split_view_same_space_focus_target_from_source(
            snapshot,
            focused.id,
            direction,
        ),
        Err(_) => None,
    }
}

/// Finds the outermost window of process `pid` that accessibility knows, seen from the focus.
pub fn native_ax_backed_same_pid_target(
    snapshot: &NativeDesktopSnapshot,
    direction: NativeDirection,
    pid: u32,
    ax_window_ids: &HashSet<u64>,
) -> (result: Option<u64>)
    ensures
        result == ax_same_pid_target(*snapshot, direction, pid, ax_window_ids@),
{
    let Ok(focused) = resolved_focused_native_window(snapshot) else {
        return None;
    };
    let Some(focused_space) = native_space(snapshot, focused.space_id) else {
        return None;
    };
    if focused.pid != Some(pid) || focused_space.kind != SpaceKind::SplitView {
        return None;
    }
    let Some(source_bounds) = focused.bounds else {
        return None;
    };
    let ghost ranks = ax_neighbor_ranks(
        snapshot.windows@,
        *focused,
        direction,
        pid,
        ax_window_ids@,
    );
    let windows: &Vec<NativeWindowSnapshot> = &snapshot.windows;
    let mut keys: Vec<Option<Key>> = Vec::new();
    let mut at: usize = 0;
    while at < windows.len()
        invariant
            at <= windows.len(),
            focused.bounds == Some(source_bounds),
            ranks == ax_neighbor_ranks(windows@, *focused, direction, pid, ax_window_ids@),
            keys.len() == at,
            forall|i: int|
                0 <= i < at ==> #[trigger] select::ranks_of(keys@)[i] == ranks[i],
        decreases windows.len() - at,
    {
        let ghost before = select::ranks_of(keys@);
        let window: &NativeWindowSnapshot = &windows[at];
        if window.pid == Some(pid) && ax_window_ids.contains(&window.id) {
            keys.push(split_view_neighbor_key(window, focused, source_bounds, direction));
        } else {
            keys.push(None);
        }
        assert forall|i: int| 0 <= i < at implies #[trigger] select::ranks_of(keys@)[i]
            == before[i] by {}
        at += 1;
    }
    assert(select::ranks_of(keys@) =~= ranks);
    proof {
        select::choices_are_optimal(ranks);
    }
    match select::last_greatest_key(&keys) {
        Some(at) => Some(windows[at].id),
        None => None,
    }
}

/// `window` may stand in for the stale target `target`: it neighbours `source`, belongs to the
/// same application, and its process is known.
pub open spec fn is_same_app_peer(
    window: NativeWindowSnapshot,
    source: NativeWindowSnapshot,
    target: NativeWindowSnapshot,
    direction: NativeDirection,
) -> bool {
    &&& is_split_view_neighbor(window, source, direction)
    &&& window.id != target.id
    &&& window.pid is Some
    &&& window.app_id is Some
    &&& target.app_id is Some
    &&& window.app_id->0@ == target.app_id->0@
}

pub open spec fn same_app_peer(
    source: NativeWindowSnapshot,
    target: NativeWindowSnapshot,
    direction: NativeDirection,
) -> spec_fn(NativeWindowSnapshot) -> bool {
    |window: NativeWindowSnapshot| is_same_app_peer(window, source, target, direction)
}

/// A rank that sorts the other way round.
pub open spec fn reversed(rank: select::Rank) -> select::Rank {
    (-rank.0, -rank.1, -rank.2, -rank.3)
}

/// Ranks that put the outermost window first.
pub open spec fn outermost_first(windows: Seq<NativeWindowSnapshot>, direction: NativeDirection) -> Seq<
    select::Rank,
> {
    Seq::new(windows.len(), |i: int| reversed(edge_rank(windows[i], direction)))
}

/// Windows as (identifier, process) pairs, outermost first.
pub open spec fn outermost_pairs(windows: Seq<NativeWindowSnapshot>, direction: NativeDirection) -> Seq<
    (u64, u32),
> {
    let order = select::stable_order(outermost_first(windows, direction));
    Seq::new(order.len(), |i: int| (windows[order[i]].id, windows[order[i]].pid->0))
}

/// The same-application stand-ins for the window `target_id` that lie in `direction` of the
/// window `source_id`, outermost first.
pub open spec fn peer_candidates(
    snapshot: NativeDesktopSnapshot,
    source_id: u64,
    direction: NativeDirection,
    target_id: u64,
) -> Seq<(u64, u32)> {
    match (
        window_with_id(snapshot.windows@, source_id),
        window_with_id(snapshot.windows@, target_id),
    ) {
        (Some(source), Some(target)) => if source.bounds is Some {
            outermost_pairs(
                snapshot.windows@.filter(same_app_peer(source, target, direction)),
                direction,
            )
        } else {
            Seq::empty()
        },
        _ => Seq::empty(),
    }
}

fn same_app_peer_key(
    window: &NativeWindowSnapshot,
    source: &NativeWindowSnapshot,
    source_bounds: NativeBounds,
    target: &NativeWindowSnapshot,
    direction: NativeDirection,
) -> (key: Option<(Key, u64, u32)>)
    requires
        source.bounds == Some(source_bounds),
    ensures
        key is Some == is_same_app_peer(*window, *source, *target, direction),
        key matches Some((key, id, pid)) ==> key@ == reversed(edge_rank(*window, direction)) && id
            == window.id && window.pid == Some(pid),
{
    if window.id == target.id {
        return None;
    }
    match (&window.app_id, &target.app_id, window.pid) {
        (Some(app_id), Some(target_app_id), Some(pid)) => {
            if *app_id != *target_app_id {
                return None;
            }
            if window.id == source.id || window.space_id != source.space_id || window.level != 0 {
                return None;
            }
            match window.bounds {
                Some(bounds) => if native_candidate_extends_in_direction(
                    source_bounds,
                    bounds,
                    direction,
                ) {
                    let key: Key = Key {
                        first: -(reach_of(direction, bounds) as i128),
                        second: order_key(window.order_index),
                        third: window.id as i128,
                        fourth: 0,
                    };
                    Some((key, window.id, pid))
                } else {
                    None
                },
                None => None,
            }
        },
        _ => None,
    }
}

/// Lists the same-application stand-ins for a stale target, outermost first.
pub fn split_view_peer_candidates(
    snapshot: &NativeDesktopSnapshot,
    source_window_id: u64,
    direction: NativeDirection,
    target_window_id: u64,
) -> (result: Vec<(u64, u32)>)
    ensures
        result@ == peer_candidates(*snapshot, source_window_id, direction, target_window_id),
{
    let (Some(source), Some(target)) = (
        native_window(snapshot, source_window_id),
        native_window(snapshot, target_window_id),
    ) else {
        return Vec::new();
    };
    let Some(source_bounds) = source.bounds else {
        return Vec::new();
    };
    let windows: &Vec<NativeWindowSnapshot> = &snapshot.windows;
    let ghost keep = same_app_peer(*source, *target, direction);
    let mut keys: Vec<Key> = Vec::new();
    let mut pairs: Vec<(u64, u32)> = Vec::new();
    let mut at: usize = 0;
    assert(windows@.take(0).filter(keep) =~= Seq::empty()) by {
        reveal(Seq::filter);
    }
    while at < windows.len()
        invariant
            at <= windows.len(),
            source.bounds == Some(source_bounds),
            keep == same_app_peer(*source, *target, direction),
            keys.len() == pairs.len(),
            pairs.len() == windows@.take(at as int).filter(keep).len(),
            forall|i: int|
                0 <= i < pairs.len() ==> (#[trigger] keys@[i])@ == reversed(
                    edge_rank(windows@.take(at as int).filter(keep)[i], direction),
                ),
            forall|i: int|
                0 <= i < pairs.len() ==> (#[trigger] pairs@[i]) == (
                    windows@.take(at as int).filter(keep)[i].id,
                    windows@.take(at as int).filter(keep)[i].pid->0,
                ),
        decreases windows.len() - at,
    {
        proof {
            select::lemma_filter_step(windows@, keep, at as int);
        }
        if let Some((key, id, pid)) = same_app_peer_key(
            &windows[at],
            source,
            source_bounds,
            target,
            direction,
        ) {
            keys.push(key);
            pairs.push((id, pid));
        }
        at += 1;
    }
    assert(windows@.take(windows@.len() as int) =~= windows@);
    let ghost kept = windows@.filter(keep);
    assert(select::all_ranks_of(keys@) =~= outermost_first(kept, direction));
    let order = select::stable_order_of_keys(&keys);
    let mut result: Vec<(u64, u32)> = Vec::new();
    let mut next: usize = 0;
    while next < order.len()
        invariant
            next <= order.len(),
            order.len() == pairs.len(),
            forall|i: int| 0 <= i < order.len() ==> (#[trigger] order@[i]) < pairs.len(),
            result.len() == next,
            forall|i: int|
                0 <= i < next ==> #[trigger] result@[i] == pairs@[order@[i] as int],
        decreases order.len() - next,
    {
        result.push(pairs[order[next]]);
        next += 1;
    }
    proof {
        let sorted = select::stable_order(outermost_first(kept, direction));
        assert forall|i: int| 0 <= i < result.len() implies #[trigger] result@[i] == (
            kept[sorted[i]].id,
            kept[sorted[i]].pid->0,
        ) by {
            assert(select::positions(order@)[i] == sorted[i]);
        }
        assert(result@ =~= outermost_pairs(kept, direction));
    }
    result
}

/// Frame and space in which a stand-in for the window `target_id` is to be looked for: those of
/// the window itself, and of the hint where the window does not say.
pub open spec fn remap_place(
    snapshot: NativeDesktopSnapshot,
    target_id: u64,
    hint: Option<ActiveSpaceFocusTargetHint>,
) -> Option<(NativeBounds, u64)> {
    let target = window_with_id(snapshot.windows@, target_id);
    let bounds = match (target, hint) {
        (Some(window), _) if window.bounds is Some => window.bounds,
        (_, Some(hint)) => Some(hint.bounds),
        _ => None,
    };
    let space_id = match (target, hint) {
        (Some(window), _) => Some(window.space_id),
        (None, Some(hint)) => Some(hint.space_id),
        (None, None) => None,
    };
    match (bounds, space_id) {
        (Some(bounds), Some(space_id)) => Some((bounds, space_id)),
        _ => None,
    }
}

/// A stale target of process `pid` may be replaced: it was last seen in a split view, and the
/// snapshot does not say that it belongs to another process.
pub open spec fn remap_allowed(
    snapshot: NativeDesktopSnapshot,
    target_id: u64,
    pid: u32,
    hint: Option<ActiveSpaceFocusTargetHint>,
) -> bool {
    &&& remap_place(snapshot, target_id, hint) matches Some((_, space_id)) && space_with_id(
        snapshot.spaces@,
        space_id,
    ) matches Some(space) && space.kind == SpaceKind::SplitView
    &&& window_with_id(snapshot.windows@, target_id) matches Some(window) ==> window.pid == Some(
        pid,
    )
}

/// Match ranks of the windows that may replace a stale target.
pub open spec fn replacement_ranks(
    windows: Seq<NativeWindowSnapshot>,
    target_id: u64,
    target_bounds: NativeBounds,
    space_id: u64,
    pid: u32,
    ax_window_ids: Set<u64>,
) -> Seq<Option<select::Rank>> {
    Seq::new(
        windows.len(),
        |i: int|
            if windows[i].id != target_id && windows[i].space_id == space_id && windows[i].pid
                == Some(pid) && windows[i].level == 0 && windows[i].bounds is Some
                && ax_window_ids.contains(windows[i].id) {
                Some(match_rank(target_bounds, windows[i]))
            } else {
                None
            },
    )
}

/// Decides whether a stale target may be replaced, and where to look for the replacement.
pub fn active_space_remap_place(
    snapshot: &NativeDesktopSnapshot,
    target_window_id: u64,
    pid: u32,
    target_hint: Option<ActiveSpaceFocusTargetHint>,
) -> (result: Option<(NativeBounds, u64)>)
    ensures
        result == if remap_allowed(*snapshot, target_window_id, pid, target_hint) {
            remap_place(*snapshot, target_window_id, target_hint)
        } else {
            None
        },
{
    let target = native_window(snapshot, target_window_id);
    let hinted_bounds: Option<NativeBounds> = match target_hint {
        Some(hint) => Some(hint.bounds),
        None => None,
    };
    let bounds: Option<NativeBounds> = match target {
        Some(window) => match window.bounds {
            Some(bounds) => Some(bounds),
            None => hinted_bounds,
        },
        None => hinted_bounds,
    };
    let space_id: Option<u64> = match (target, target_hint) {
        (Some(window), _) => Some(window.space_id),
        (None, Some(hint)) => Some(hint.space_id),
        (None, None) => None,
    };
    match (bounds, space_id) {
        (Some(bounds), Some(space_id)) => {
            let Some(space) = native_space(snapshot, space_id) else {
                return None;
            };
            if space.kind != SpaceKind::SplitView {
                return None;
            }
            if let Some(window) = target {
                if window.pid != Some(pid) {
                    return None;
                }
            }
            Some((bounds, space_id))
        },
        _ => None,
    }
}

/// Finds the window of process `pid` that best covers the place of a stale target.
pub fn active_space_ax_backed_same_pid_target(
    snapshot: &NativeDesktopSnapshot,
    target_window_id: u64,
    target_bounds: NativeBounds,
    target_space_id: u64,
    pid: u32,
    ax_window_ids: &HashSet<u64>,
) -> (result: Option<u64>)
    ensures
        result == chosen_id(
            snapshot.windows@,
            select::last_greatest(
                replacement_ranks(
                    snapshot.windows@,
                    target_window_id,
                    target_bounds,
                    target_space_id,
                    pid,
                    ax_window_ids@,
                ),
            ),
        ),
{
    let windows: &Vec<NativeWindowSnapshot> = &snapshot.windows;
    let ghost ranks = replacement_ranks(
        windows@,
        target_window_id,
        target_bounds,
        target_space_id,
        pid,
        ax_window_ids@,
    );
    let mut keys: Vec<Option<Key>> = Vec::new();
    let mut at: usize = 0;
    while at < windows.len()
        invariant
            at <= windows.len(),
            ranks == replacement_ranks(
                windows@,
                target_window_id,
                target_bounds,
                target_space_id,
                pid,
                ax_window_ids@,
            ),
            keys.len() == at,
            forall|i: int|
                0 <= i < at ==> #[trigger] select::ranks_of(keys@)[i] == ranks[i],
        decreases windows.len() - at,
    {
        let ghost before = select::ranks_of(keys@);
        let window: &NativeWindowSnapshot = &windows[at];
        let eligible: bool = window.id != target_window_id && window.space_id == target_space_id
            && window.pid == Some(pid) && window.level == 0 && ax_window_ids.contains(&window.id);
        match window.bounds {
            Some(bounds) => if eligible {
                keys.push(Some(match_key(target_bounds, window, bounds)));
            } else {
                keys.push(None);
            },
            None => {
                keys.push(None);
            },
        }
        assert forall|i: int| 0 <= i < at implies #[trigger] select::ranks_of(keys@)[i]
            == before[i] by {}
        at += 1;
    }
    assert(select::ranks_of(keys@) =~= ranks);
    proof {
        select::choices_are_optimal(ranks);
    }
    match select::last_greatest_key(&keys) {
        Some(at) => Some(windows[at].id),
        None => None,
    }
}

/// Inside a split view a step in `direction` leads to another window of the same space that lies
/// further out than the source, and no such window lies further out than the one it leads to.
pub proof fn split_view_target_is_the_outermost_neighbor(
    snapshot: NativeDesktopSnapshot,
    source_id: u64,
    direction: NativeDirection,
)
    requires
        split_view_target(snapshot, source_id, direction) is Some,
    ensures
        window_with_id(snapshot.windows@, source_id) matches Some(source) && exists|at: int|
            0 <= at < snapshot.windows@.len() && (#[trigger] snapshot.windows@[at]).id
                == split_view_target(snapshot, source_id, direction)->0 && is_split_view_neighbor(
                snapshot.windows@[at],
                source,
                direction,
            ) && forall|i: int|
                0 <= i < snapshot.windows@.len() && is_split_view_neighbor(
                    #[trigger] snapshot.windows@[i],
                    source,
                    direction,
                ) ==> bounds_reach(direction, snapshot.windows@[i].bounds->0) <= bounds_reach(
                    direction,
                    snapshot.windows@[at].bounds->0,
                ),
{
    let windows = snapshot.windows@;
    let source = window_with_id(windows, source_id)->0;
    let ranks = neighbor_ranks(windows, source, direction);
    select::choices_are_optimal(ranks);
    let at = select::last_greatest(ranks)->0;
    assert(ranks[at] is Some);
    assert(windows[at].id == split_view_target(snapshot, source_id, direction)->0);
    assert forall|i: int|
        0 <= i < windows.len() && is_split_view_neighbor(
            #[trigger] windows[i],
            source,
            direction,
        ) implies bounds_reach(direction, windows[i].bounds->0) <= bounds_reach(
        direction,
        windows[at].bounds->0,
    ) by {
        assert(ranks[i] is Some);
    }
}

/// A step inside a split view never leads back to where it started.
pub proof fn split_view_target_leaves_the_source(
    snapshot: NativeDesktopSnapshot,
    source_id: u64,
    direction: NativeDirection,
)
    ensures
        split_view_target(snapshot, source_id, direction) != Some(source_id),
{
    if split_view_target(snapshot, source_id, direction) == Some(source_id) {
        split_view_target_is_the_outermost_neighbor(snapshot, source_id, direction);
        select::first_set_finds_the_first(with_id(snapshot.windows@, source_id));
    }
}

/// Every stand-in is a window of the snapshot, of the target's application, in the source's
/// space, further out in `direction` than the source; it is neither the source nor the target.
pub proof fn peer_candidates_are_same_app_neighbors(
    snapshot: NativeDesktopSnapshot,
    source_id: u64,
    direction: NativeDirection,
    target_id: u64,
    at: int,
)
    requires
        0 <= at < peer_candidates(snapshot, source_id, direction, target_id).len(),
    ensures
        ({
            let pair = peer_candidates(snapshot, source_id, direction, target_id)[at];
            let source = window_with_id(snapshot.windows@, source_id);
            let target = window_with_id(snapshot.windows@, target_id);
            source is Some && target is Some && exists|i: int|
                0 <= i < snapshot.windows@.len() && is_same_app_peer(
                    #[trigger] snapshot.windows@[i],
                    source->0,
                    target->0,
                    direction,
                ) && pair == (snapshot.windows@[i].id, snapshot.windows@[i].pid->0)
        }),
{
    let windows = snapshot.windows@;
    let source = window_with_id(windows, source_id)->0;
    let target = window_with_id(windows, target_id)->0;
    let keep = same_app_peer(source, target, direction);
    let kept = windows.filter(keep);
    let order = select::stable_order(outermost_first(kept, direction));
    select::stable_order_is_a_sorted_permutation(outermost_first(kept, direction));
    select::lemma_stable_order_in_range(outermost_first(kept, direction), at);
    let window = kept[order[at]];
    windows.lemma_filter_contains_rev(keep, window);
    let i = windows.index_of(window);
    assert(windows[i] == window);
    windows.lemma_filter_pred(keep, order[at]);
}

/// The focused window is one of the listed windows: the one that the snapshot names, if that is
/// listed, and otherwise one of an active space.
pub proof fn focused_window_is_listed(snapshot: NativeDesktopSnapshot)
    requires
        focused_window(snapshot) is Some,
    ensures
        exists|i: int|
            0 <= i < snapshot.windows@.len() && #[trigger] snapshot.windows@[i] == focused_window(
                snapshot,
            )->0,
        focused_window(snapshot)->0.id == snapshot.focused_window_id->0 && snapshot.focused_window_id
            is Some || snapshot.active_space_ids@.contains(focused_window(snapshot)->0.space_id),
{
    let windows = snapshot.windows@;
    let ranks = active_ranks(windows, snapshot.active_space_ids@);
    if let Some(id) = snapshot.focused_window_id {
        select::first_set_finds_the_first(with_id(windows, id));
        if let Some(at) = select::first_set(with_id(windows, id)) {
            assert(with_id(windows, id)[at]);
            assert(windows[at] == focused_window(snapshot)->0);
        }
    }
    select::choices_are_optimal(ranks);
    if let Some(at) = select::first_least(ranks) {
        assert(ranks[at] is Some);
        assert(0 <= at < windows.len() && windows[at] == windows[at]);
    }
}

/// One frame reaches past another towards a side: its edge on that side lies further out.
pub open spec fn reaches_past(
    far: NativeBounds,
    near: NativeBounds,
    direction: NativeDirection,
) -> bool {
    match direction {
        NativeDirection::West => far.x < near.x,
        NativeDirection::East => far.x + far.width > near.x + near.width,
        NativeDirection::North => far.y < near.y,
        NativeDirection::South => far.y + far.height > near.y + near.height,
    }
}

/// Windows sort front to back by their order index, and those without one behind all others.
pub proof fn windows_sort_front_to_back(
    front: Option<usize>,
    back: Option<usize>,
    front_key: i128,
    back_key: i128,
)
    requires
        call_ensures(order_key, (front,), front_key),
        call_ensures(order_key, (back,), back_key),
    ensures
        front_key < back_key <==> comes_before(front, back),
        front_key == back_key <==> front == back,
{
}

/// A candidate extends in a direction exactly if its edge on that side lies beyond the one of the
/// source.
pub proof fn candidates_extend_past_the_source(
    source: NativeBounds,
    candidate: NativeBounds,
    direction: NativeDirection,
    result: bool,
)
    requires
        call_ensures(
            native_candidate_extends_in_direction,
            (source, candidate, direction),
            result,
        ),
    ensures
        result <==> reaches_past(candidate, source, direction),
        result == extends(source, candidate, direction),
{
}

/// The overlap of two spans is the length of the longest piece that lies in both, and nothing where
/// no piece does.
pub proof fn overlaps_are_the_longest_common_piece(
    start_a: i32,
    len_a: i32,
    start_b: i32,
    len_b: i32,
    result: i64,
    from: int,
    to: int,
)
    requires
        call_ensures(native_overlap_len, (start_a, len_a, start_b, len_b), result),
        start_a <= from <= to <= start_a + len_a,
        start_b <= from <= to <= start_b + len_b,
    ensures
        to - from <= result,
        exists|at: int|
            #![trigger at + result]
            start_a <= at && at + result <= start_a + len_a && start_b <= at && at + result
                <= start_b + len_b,
{
    let at: int = if start_a > start_b {
        start_a as int
    } else {
        start_b as int
    };
    assert(start_a <= at && at + result <= start_a + len_a && start_b <= at && at + result
        <= start_b + len_b);
}

/// Spans that lie apart have no overlap.
pub proof fn spans_apart_do_not_overlap(
    start_a: i32,
    len_a: i32,
    start_b: i32,
    len_b: i32,
    result: i64,
)
    requires
        call_ensures(native_overlap_len, (start_a, len_a, start_b, len_b), result),
        start_a + len_a <= start_b || start_b + len_b <= start_a || len_a <= 0 || len_b <= 0,
    ensures
        result == 0,
{
}

/// The overlap of two frames is that of their widths times that of their heights.
pub proof fn overlap_areas_are_width_times_height(
    left: NativeBounds,
    right: NativeBounds,
    width: i64,
    height: i64,
    area: i64,
)
    requires
        call_ensures(native_overlap_len, (left.x, left.width, right.x, right.width), width),
        call_ensures(native_overlap_len, (left.y, left.height, right.y, right.height), height),
        call_ensures(native_overlap_area, (left, right), area),
    ensures
        area == width * height,
{
}

/// `center` lies half an extent behind `start`, rounded towards the start.
pub open spec fn is_center(center: int, start: i32, extent: i32) -> bool {
    let rest = extent - 2 * (center - start);
    if extent >= 0 {
        0 <= rest <= 1
    } else {
        -1 <= rest <= 0
    }
}

/// The distance of two frames is that of their centres: the squares of how far these lie apart
/// sideways and up or down, added up.
pub proof fn distances_are_between_centers(
    left: NativeBounds,
    right: NativeBounds,
    left_center: (int, int),
    right_center: (int, int),
    result: i128,
)
    requires
        is_center(left_center.0, left.x, left.width),
        is_center(left_center.1, left.y, left.height),
        is_center(right_center.0, right.x, right.width),
        is_center(right_center.1, right.y, right.height),
        call_ensures(native_center_distance_sq, (left, right), result),
    ensures
        result == (left_center.0 - right_center.0) * (left_center.0 - right_center.0) + (
        left_center.1 - right_center.1) * (left_center.1 - right_center.1),
{
    assert(left_center.0 == left.x + half(left.width as int));
    assert(left_center.1 == left.y + half(left.height as int));
    assert(right_center.0 == right.x + half(right.width as int));
    assert(right_center.1 == right.y + half(right.height as int));
}

proof fn lemma_window_with_id(windows: Seq<NativeWindowSnapshot>, id: u64)
    ensures
        match window_with_id(windows, id) {
            Some(window) => exists|at: int|
                0 <= at < windows.len() && #[trigger] windows[at] == window && window.id == id
                    && forall|i: int| 0 <= i < at ==> (#[trigger] windows[i]).id != id,
            None => forall|i: int| 0 <= i < windows.len() ==> (#[trigger] windows[i]).id != id,
        },
{
    let flags = with_id(windows, id);
    select::first_set_finds_the_first(flags);
    assert forall|i: int| 0 <= i < windows.len() implies flags[i] == ((#[trigger] windows[i]).id
        == id) by {}
    if let Some(at) = select::first_set(flags) {
        assert(windows[at] == window_with_id(windows, id)->0);
    }
}

/// A window is looked up as the first that carries its identifier, and so is a space.
pub proof fn lookups_find_the_first(
    snapshot: NativeDesktopSnapshot,
    id: u64,
    window: Option<&NativeWindowSnapshot>,
    space: Option<NativeSpaceSnapshot>,
)
    requires
        call_ensures(native_window, (&snapshot, id), window),
        call_ensures(native_space, (&snapshot, id), space),
    ensures
        match window {
            Some(window) => exists|at: int|
                0 <= at < snapshot.windows@.len() && #[trigger] snapshot.windows@[at] == *window
                    && window.id == id && forall|i: int|
                    0 <= i < at ==> (#[trigger] snapshot.windows@[i]).id != id,
            None => forall|i: int|
                0 <= i < snapshot.windows@.len() ==> (#[trigger] snapshot.windows@[i]).id != id,
        },
        match space {
            Some(space) => exists|at: int|
                0 <= at < snapshot.spaces@.len() && #[trigger] snapshot.spaces@[at] == space
                    && space.id == id && forall|i: int|
                    0 <= i < at ==> (#[trigger] snapshot.spaces@[i]).id != id,
            None => forall|i: int|
                0 <= i < snapshot.spaces@.len() ==> (#[trigger] snapshot.spaces@[i]).id != id,
        },
        window_with_id(snapshot.windows@, id) == (match window {
            Some(window) => Some(*window),
            None => None,
        }),
        space_with_id(snapshot.spaces@, id) == space,
{
    lemma_window_with_id(snapshot.windows@, id);
    let flags = spaces_with_id(snapshot.spaces@, id);
    select::first_set_finds_the_first(flags);
    assert forall|i: int| 0 <= i < snapshot.spaces@.len() implies flags[i] == ((
    #[trigger] snapshot.spaces@[i]).id == id) by {}
    if let Some(at) = select::first_set(flags) {
        assert(snapshot.spaces@[at] == space->0);
    }
}

/// The focus is on the listed window that the snapshot names. Where it names none of them it is on a
/// window of an active space, and none such lies in front of it, nor beside it with a smaller
/// identifier.
pub proof fn the_focus_is_named_or_frontmost(
    snapshot: NativeDesktopSnapshot,
    named: Option<&NativeWindowSnapshot>,
    focused: Result<&NativeWindowSnapshot, MacosNativeProbeError>,
    at: int,
)
    requires
        call_ensures(resolved_focused_native_window, (&snapshot,), focused),
        snapshot.focused_window_id matches Some(id) ==> call_ensures(
            native_window,
            (&snapshot, id),
            named,
        ),
        snapshot.focused_window_id is None ==> named is None,
        0 <= at < snapshot.windows@.len(),
    ensures
        named matches Some(window) ==> focused == Ok::<_, MacosNativeProbeError>(window),
        named is None && snapshot.active_space_ids@.contains(snapshot.windows@[at].space_id)
            ==> focused is Ok,
        named is None && focused is Ok ==> {
            let (window, other) = (*focused->Ok_0, snapshot.windows@[at]);
            &&& snapshot.windows@.contains(window)
            &&& snapshot.active_space_ids@.contains(window.space_id)
            &&& snapshot.active_space_ids@.contains(other.space_id) ==> !comes_before(
                other.order_index,
                window.order_index,
            )
            &&& snapshot.active_space_ids@.contains(other.space_id) && other.order_index
                == window.order_index ==> window.id <= other.id
        },
        focused is Err ==> focused == Err::<&NativeWindowSnapshot, MacosNativeProbeError>(
            MacosNativeProbeError::MissingFocusedWindow,
        ),
{
    let ranks = active_ranks(snapshot.windows@, snapshot.active_space_ids@);
    select::choices_are_optimal(ranks);
    assert(ranks[at] == if snapshot.active_space_ids@.contains(snapshot.windows@[at].space_id) {
        Some(active_rank(snapshot.windows@[at]))
    } else {
        None
    });
    if named is None {
        if let Some(found) = select::first_least(ranks) {
            assert(ranks[found] is Some);
            assert(snapshot.windows@[found] == focused_window(snapshot)->0);
        }
    }
}

/// `window` lies in the space of `source` on the normal level, and past it towards `direction`.
pub open spec fn lies_past(
    window: NativeWindowSnapshot,
    source: NativeWindowSnapshot,
    direction: NativeDirection,
) -> bool {
    &&& window.id != source.id
    &&& window.space_id == source.space_id
    &&& window.level == 0
    &&& window.bounds is Some
    &&& source.bounds is Some
    &&& reaches_past(window.bounds->0, source.bounds->0, direction)
}

/// No window is to be preferred: `other` does not lie further out than `window`, and where neither
/// does, it neither lies in front nor carries a smaller identifier at the same place.
pub open spec fn is_outermost_of(
    window: NativeWindowSnapshot,
    other: NativeWindowSnapshot,
    direction: NativeDirection,
) -> bool {
    let (frame, rest) = (window.bounds->0, other.bounds->0);
    let level = !reaches_past(frame, rest, direction);
    &&& !reaches_past(rest, frame, direction)
    &&& level ==> !comes_before(other.order_index, window.order_index)
    &&& level && other.order_index == window.order_index ==> window.id <= other.id
}

/// A step inside a split view leads to the outermost window past the source, the frontmost of those
/// that lie equally far out. It leads nowhere exactly if the source is not listed with a frame in a
/// split view, or if nothing lies past it.
pub proof fn split_view_steps_lead_to_the_outermost_window(
    snapshot: NativeDesktopSnapshot,
    source_id: u64,
    direction: NativeDirection,
    source: Option<&NativeWindowSnapshot>,
    space: Option<NativeSpaceSnapshot>,
    result: Option<u64>,
    at: int,
)
    requires
        call_ensures(native_window, (&snapshot, source_id), source),
        source matches Some(window) ==> call_ensures(
            native_space,
            (&snapshot, window.space_id),
            space,
        ),
        call_ensures(
            split_view_same_space_focus_target_from_source,
            (&snapshot, source_id, direction),
            result,
        ),
        0 <= at < snapshot.windows@.len(),
    ensures
        source is None || space is None || !(space->0.kind is SplitView) ==> result is None,
        (source matches Some(source) && space matches Some(space) && space.kind is SplitView
            && lies_past(snapshot.windows@[at], *source, direction)) ==> result is Some,
        result matches Some(id) ==> exists|best: int|
            #![trigger snapshot.windows@[best]]
            0 <= best < snapshot.windows@.len() && snapshot.windows@[best].id == id && lies_past(
                snapshot.windows@[best],
                *source->0,
                direction,
            ) && (lies_past(snapshot.windows@[at], *source->0, direction) ==> is_outermost_of(
                snapshot.windows@[best],
                snapshot.windows@[at],
                direction,
            )),
        result == split_view_target(snapshot, source_id, direction),
{
    if let Some(source) = source {
        let ranks = neighbor_ranks(snapshot.windows@, *source, direction);
        select::choices_are_optimal(ranks);
        assert(source.bounds is Some ==> (is_split_view_neighbor(
            snapshot.windows@[at],
            *source,
            direction,
        ) <==> lies_past(snapshot.windows@[at], *source, direction)));
        assert(ranks[at] == if is_split_view_neighbor(snapshot.windows@[at], *source, direction) {
            Some(edge_rank(snapshot.windows@[at], direction))
        } else {
            None
        });
        if let Some(best) = select::last_greatest(ranks) {
            assert(ranks[best] is Some);
            assert(snapshot.windows@[best].bounds is Some);
        }
    }
}

/// A step from the focus is a step from the window that has it.
pub proof fn split_view_steps_start_at_the_focus(
    snapshot: NativeDesktopSnapshot,
    direction: NativeDirection,
    focused: Result<&NativeWindowSnapshot, MacosNativeProbeError>,
    from_source: Option<u64>,
    result: Option<u64>,
)
    requires
        call_ensures(resolved_focused_native_window, (&snapshot,), focused),
        focused matches Ok(window) ==> call_ensures(
            split_view_same_space_focus_target_from_source,
            (&snapshot, window.id, direction),
            from_source,
        ),
        call_ensures(split_view_same_space_focus_target, (&snapshot, direction), result),
    ensures
        focused is Ok ==> result == from_source,
        focused is Err ==> result is None,
{
}

/// A step among the windows of the focused process leads to the outermost one past the focus that
/// accessibility lists, the frontmost of those that lie equally far out.
pub proof fn steps_within_a_process_lead_to_the_outermost_window(
    snapshot: NativeDesktopSnapshot,
    direction: NativeDirection,
    pid: u32,
    ax_window_ids: HashSet<u64>,
    focused: Result<&NativeWindowSnapshot, MacosNativeProbeError>,
    space: Option<NativeSpaceSnapshot>,
    result: Option<u64>,
    at: int,
)
    requires
        call_ensures(resolved_focused_native_window, (&snapshot,), focused),
        focused matches Ok(window) ==> call_ensures(
            native_space,
            (&snapshot, window.space_id),
            space,
        ),
        call_ensures(
            native_ax_backed_same_pid_target,
            (&snapshot, direction, pid, &ax_window_ids),
            result,
        ),
        0 <= at < snapshot.windows@.len(),
    ensures
        focused is Err || space is None || !(space->0.kind is SplitView) ==> result is None,
        focused is Ok && focused->Ok_0.pid != Some(pid) ==> result is None,
        (focused matches Ok(source) && space matches Some(space) && space.kind is SplitView
            && source.pid == Some(pid) && snapshot.windows@[at].pid == Some(pid)
            && ax_window_ids@.contains(snapshot.windows@[at].id) && lies_past(
            snapshot.windows@[at],
            *source,
            direction,
        )) ==> result is Some,
        result matches Some(id) ==> exists|best: int|
            #![trigger snapshot.windows@[best]]
            {
                let (window, other) = (snapshot.windows@[best], snapshot.windows@[at]);
                &&& 0 <= best < snapshot.windows@.len()
                &&& window.id == id
                &&& window.pid == Some(pid)
                &&& ax_window_ids@.contains(id)
                &&& lies_past(window, *focused->Ok_0, direction)
                &&& other.pid == Some(pid) && ax_window_ids@.contains(other.id) && lies_past(
                    other,
                    *focused->Ok_0,
                    direction,
                ) ==> is_outermost_of(window, other, direction)
            },
        result == ax_same_pid_target(snapshot, direction, pid, ax_window_ids@),
{
    if let Ok(source) = focused {
        let ranks = ax_neighbor_ranks(
            snapshot.windows@,
            *source,
            direction,
            pid,
            ax_window_ids@,
        );
        select::choices_are_optimal(ranks);
        assert(source.bounds is Some ==> (is_split_view_neighbor(
            snapshot.windows@[at],
            *source,
            direction,
        ) <==> lies_past(snapshot.windows@[at], *source, direction)));
        assert(ranks[at] == if is_split_view_neighbor(snapshot.windows@[at], *source, direction)
            && snapshot.windows@[at].pid == Some(pid) && ax_window_ids@.contains(
            snapshot.windows@[at].id,
        ) {
            Some(edge_rank(snapshot.windows@[at], direction))
        } else {
            None
        });
        if let Some(best) = select::last_greatest(ranks) {
            assert(ranks[best] is Some);
            assert(snapshot.windows@[best].bounds is Some);
        }
    }
}

/// `window` lies past `source`, is another window than `target` but of the same application, and its
/// process is known.
pub open spec fn stands_in(
    window: NativeWindowSnapshot,
    source: NativeWindowSnapshot,
    target: NativeWindowSnapshot,
    direction: NativeDirection,
) -> bool {
    &&& lies_past(window, source, direction)
    &&& window.id != target.id
    &&& window.pid is Some
    &&& window.app_id matches Some(app) && target.app_id matches Some(wanted) && app@ == wanted@
}

/// Every window that may stand in for a stale target is listed, with its process, and every listed
/// one may; without a source or a target none is.
pub proof fn stand_ins_are_all_listed(
    snapshot: NativeDesktopSnapshot,
    source_id: u64,
    direction: NativeDirection,
    target_id: u64,
    source: Option<&NativeWindowSnapshot>,
    target: Option<&NativeWindowSnapshot>,
    result: Vec<(u64, u32)>,
    window: int,
    at: int,
)
    requires
        call_ensures(native_window, (&snapshot, source_id), source),
        call_ensures(native_window, (&snapshot, target_id), target),
        call_ensures(
            split_view_peer_candidates,
            (&snapshot, source_id, direction, target_id),
            result,
        ),
    ensures
        source is None || target is None ==> result@.len() == 0,
        (source matches Some(source) && target matches Some(target) && 0 <= window
            < snapshot.windows@.len() && stands_in(
            snapshot.windows@[window],
            *source,
            *target,
            direction,
        )) ==> result@.contains(
            (snapshot.windows@[window].id, snapshot.windows@[window].pid->0),
        ),
        0 <= at < result@.len() ==> source is Some && target is Some && exists|i: int|
            0 <= i < snapshot.windows@.len() && stands_in(
                #[trigger] snapshot.windows@[i],
                *source->0,
                *target->0,
                direction,
            ) && result@[at] == (snapshot.windows@[i].id, snapshot.windows@[i].pid->0),
{
    let windows = snapshot.windows@;
    if source is Some && target is Some && source->0.bounds is Some {
        let keep = same_app_peer(*source->0, *target->0, direction);
        let kept = windows.filter(keep);
        let ranks = outermost_first(kept, direction);
        let order = select::stable_order(ranks);
        select::lemma_filter_keeps(windows, keep);
        select::stable_order_is_a_sorted_permutation(ranks);
        if 0 <= window < windows.len() && stands_in(
            windows[window],
            *source->0,
            *target->0,
            direction,
        ) {
            assert(keep(windows[window]));
            assert(kept.contains(windows[window]));
            let position = choose|i: int| 0 <= i < kept.len() && kept[i] == windows[window];
            let found = select::lemma_stable_order_covers(ranks, position);
            assert(order[found] == position);
            assert(result@[found] == (windows[window].id, windows[window].pid->0));
        }
        if 0 <= at < result@.len() {
            select::lemma_stable_order_in_range(ranks, at);
            assert(kept[order[at]] == kept[order[at]]);
            assert(windows.contains(kept[order[at]]));
            let i = choose|i: int| 0 <= i < windows.len() && windows[i] == kept[order[at]];
            assert(stands_in(windows[i], *source->0, *target->0, direction));
        }
    }
}

/// Of two listed stand-ins the earlier is not less far out, and of equally far ones no less to the
/// front.
pub proof fn stand_ins_come_outermost_first(
    snapshot: NativeDesktopSnapshot,
    source_id: u64,
    direction: NativeDirection,
    target_id: u64,
    result: Vec<(u64, u32)>,
    early: int,
    late: int,
)
    requires
        call_ensures(
            split_view_peer_candidates,
            (&snapshot, source_id, direction, target_id),
            result,
        ),
        0 <= early < late < result@.len(),
    ensures
        exists|i: int, j: int|
            #![trigger snapshot.windows@[i], snapshot.windows@[j]]
            {
                &&& 0 <= i < snapshot.windows@.len()
                &&& 0 <= j < snapshot.windows@.len()
                &&& result@[early] == (snapshot.windows@[i].id, snapshot.windows@[i].pid->0)
                &&& result@[late] == (snapshot.windows@[j].id, snapshot.windows@[j].pid->0)
                &&& is_outermost_of(snapshot.windows@[i], snapshot.windows@[j], direction)
            },
{
    let windows = snapshot.windows@;
    let source = window_with_id(windows, source_id)->0;
    let target = window_with_id(windows, target_id)->0;
    let keep = same_app_peer(source, target, direction);
    let kept = windows.filter(keep);
    let ranks = outermost_first(kept, direction);
    let order = select::stable_order(ranks);
    select::lemma_filter_keeps(windows, keep);
    select::stable_order_is_a_sorted_permutation(ranks);
    select::lemma_stable_order_in_range(ranks, early);
    select::lemma_stable_order_in_range(ranks, late);
    assert(!select::rank_lt(ranks[order[late]], ranks[order[early]]));
    assert(windows.contains(kept[order[early]]));
    assert(windows.contains(kept[order[late]]));
    let i = choose|i: int| 0 <= i < windows.len() && windows[i] == kept[order[early]];
    let j = choose|j: int| 0 <= j < windows.len() && windows[j] == kept[order[late]];
    assert(keep(windows[i]) && keep(windows[j]));
    assert(is_outermost_of(windows[i], windows[j], direction));
}

/// A stale target is looked for in its own place, or where it was last seen if it is not listed or
/// has no frame. It is not replaced outside a split view, nor if it is listed for another process.
pub proof fn stale_targets_are_looked_for_in_their_place(
    snapshot: NativeDesktopSnapshot,
    target_id: u64,
    pid: u32,
    hint: Option<ActiveSpaceFocusTargetHint>,
    target: Option<&NativeWindowSnapshot>,
    space_id: u64,
    space: Option<NativeSpaceSnapshot>,
    result: Option<(NativeBounds, u64)>,
)
    requires
        call_ensures(native_window, (&snapshot, target_id), target),
        target matches Some(window) ==> space_id == window.space_id,
        (target is None && hint is Some) ==> space_id == hint->0.space_id,
        call_ensures(native_space, (&snapshot, space_id), space),
        call_ensures(active_space_remap_place, (&snapshot, target_id, pid, hint), result),
    ensures
        result matches Some((bounds, found)) ==> {
            &&& found == space_id
            &&& space matches Some(space) && space.kind is SplitView
            &&& target matches Some(window) ==> window.pid == Some(pid)
            &&& (target is Some && target->0.bounds is Some) ==> Some(bounds) == target->0.bounds
            &&& (target is None || target->0.bounds is None) ==> hint is Some && bounds
                == hint->0.bounds
        },
        (space is Some && space->0.kind is SplitView && (target is Some ==> target->0.pid == Some(
            pid,
        )) && (target is Some && target->0.bounds is Some || hint is Some)) ==> result is Some,
        target is None && hint is None ==> result is None,
{
}

/// `window` may replace the stale target: another window of the same process and space on the normal
/// level that accessibility lists.
pub open spec fn replaces(
    window: NativeWindowSnapshot,
    target_id: u64,
    space_id: u64,
    pid: u32,
    ax_window_ids: Set<u64>,
) -> bool {
    &&& window.id != target_id
    &&& window.space_id == space_id
    &&& window.pid == Some(pid)
    &&& window.level == 0
    &&& window.bounds is Some
    &&& ax_window_ids.contains(window.id)
}

/// A stale target is replaced by the window that covers most of its place, of equal ones by that
/// whose centre is nearest, and then by the frontmost. It is replaced whenever some window may
/// replace it.
pub proof fn stale_targets_are_replaced_by_what_covers_them_best(
    snapshot: NativeDesktopSnapshot,
    target_id: u64,
    place: NativeBounds,
    space_id: u64,
    pid: u32,
    ax_window_ids: HashSet<u64>,
    result: Option<u64>,
    at: int,
)
    requires
        call_ensures(
            active_space_ax_backed_same_pid_target,
            (&snapshot, target_id, place, space_id, pid, &ax_window_ids),
            result,
        ),
        0 <= at < snapshot.windows@.len(),
    ensures
        replaces(snapshot.windows@[at], target_id, space_id, pid, ax_window_ids@) ==> result is Some,
        result matches Some(id) ==> exists|best: int|
            #![trigger snapshot.windows@[best]]
            {
                let (window, other) = (snapshot.windows@[best], snapshot.windows@[at]);
                let (cover, rest) = (
                    overlap_area(place, window.bounds->0),
                    overlap_area(place, other.bounds->0),
                );
                let (far, farther) = (
                    center_distance_sq(place, window.bounds->0),
                    center_distance_sq(place, other.bounds->0),
                );
                &&& 0 <= best < snapshot.windows@.len()
                &&& window.id == id
                &&& replaces(window, target_id, space_id, pid, ax_window_ids@)
                &&& replaces(other, target_id, space_id, pid, ax_window_ids@) ==> {
                    &&& cover >= rest
                    &&& cover == rest ==> far <= farther
                    &&& cover == rest && far == farther ==> !comes_before(
                        other.order_index,
                        window.order_index,
                    )
                    &&& cover == rest && far == farther && other.order_index == window.order_index
                        ==> window.id <= other.id
                }
            },
{
    let ranks = replacement_ranks(
        snapshot.windows@,
        target_id,
        place,
        space_id,
        pid,
        ax_window_ids@,
    );
    select::choices_are_optimal(ranks);
    assert(ranks[at] == if replaces(
        snapshot.windows@[at],
        target_id,
        space_id,
        pid,
        ax_window_ids@,
    ) {
        Some(match_rank(place, snapshot.windows@[at]))
    } else {
        None
    });
    if let Some(best) = select::last_greatest(ranks) {
        assert(ranks[best] is Some);
        assert(snapshot.windows@[best].id == result->0);
    }
}

/// One window sorts before another from front to back if it lies in front, or beside it with a smaller
/// identifier.
pub proof fn front_keys_sort_front_to_back(
    front: NativeWindowSnapshot,
    back: NativeWindowSnapshot,
    front_key: Key,
    back_key: Key,
    before: bool,
)
    requires
        call_ensures(active_key, (&front,), front_key),
        call_ensures(active_key, (&back,), back_key),
        call_ensures(Key::precedes, (&front_key, &back_key), before),
    ensures
        before <==> comes_before(front.order_index, back.order_index) || front.order_index
            == back.order_index && front.id < back.id,
{
}

/// One window sorts before another towards a side exactly if the other is to be preferred there: it
/// reaches further out, or as far and lies in front, or beside it with a smaller identifier.
pub proof fn edge_keys_sort_by_reach(
    near: NativeWindowSnapshot,
    far: NativeWindowSnapshot,
    near_frame: NativeBounds,
    far_frame: NativeBounds,
    direction: NativeDirection,
    near_key: Key,
    far_key: Key,
    before: bool,
)
    requires
        near.bounds == Some(near_frame),
        far.bounds == Some(far_frame),
        call_ensures(edge_key, (&near, near_frame, direction), near_key),
        call_ensures(edge_key, (&far, far_frame, direction), far_key),
        call_ensures(Key::precedes, (&near_key, &far_key), before),
    ensures
        before <==> reaches_past(far_frame, near_frame, direction) || !reaches_past(
            near_frame,
            far_frame,
            direction,
        ) && (comes_before(far.order_index, near.order_index) || far.order_index == near.order_index
            && far.id < near.id),
{
}

/// One window sorts before another by how it covers a place exactly if the other covers more of it, or
/// as much with a nearer centre, or lies in front with all that equal, or has a smaller identifier.
pub proof fn match_keys_sort_by_cover(
    place: NativeBounds,
    worse: NativeWindowSnapshot,
    better: NativeWindowSnapshot,
    worse_frame: NativeBounds,
    better_frame: NativeBounds,
    worse_key: Key,
    better_key: Key,
    covers: (i64, i64),
    distances: (i128, i128),
    before: bool,
)
    requires
        worse.bounds == Some(worse_frame),
        better.bounds == Some(better_frame),
        call_ensures(match_key, (place, &worse, worse_frame), worse_key),
        call_ensures(match_key, (place, &better, better_frame), better_key),
        call_ensures(native_overlap_area, (place, worse_frame), covers.0),
        call_ensures(native_overlap_area, (place, better_frame), covers.1),
        call_ensures(native_center_distance_sq, (place, worse_frame), distances.0),
        call_ensures(native_center_distance_sq, (place, better_frame), distances.1),
        call_ensures(Key::precedes, (&worse_key, &better_key), before),
    ensures
        before <==> covers.0 < covers.1 || covers.0 == covers.1 && (distances.0 > distances.1
            || distances.0 == distances.1 && (comes_before(better.order_index, worse.order_index)
            || better.order_index == worse.order_index && better.id < worse.id)),
{
}

} // verus!
