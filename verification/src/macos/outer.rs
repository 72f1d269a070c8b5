//! The desktop as the directional commands see it, and where they lead.
use crate::macos::snapshot;
use crate::macos::snapshot::order_key;
use crate::macos::types;
use crate::macos::types::{
    native_direction_from_outer, rect_from_native, DesktopError, MacosNativeOperationError,
    NativeDesktopSnapshot, NativeSpaceSnapshot, NativeWindowSnapshot, SpaceKind,
};
use crate::select;
use crate::select::Key;
use crate::topology;
use crate::topology::{reach_towards, DirectedRect, Direction, Rect};
use vstd::prelude::*;

verus! {

/// A space of the desktop.
#[derive(Clone, Copy, Debug, PartialEq, Eq, Structural)]
pub struct OuterMacosSpace {
    pub id: u64,
    pub display_index: usize,
    pub active: bool,
    pub kind: SpaceKind,
}

/// A window of the desktop.
#[derive(Clone, Copy, Debug, PartialEq, Eq)]
pub struct OuterMacosWindow {
    pub id: u64,
    pub pid: Option<u32>,
    pub space_id: u64,
    pub bounds: Option<Rect>,
    pub level: i32,
    pub order_index: Option<usize>,
}

/// The desktop.
#[derive(Debug, PartialEq, Eq)]
pub struct OuterMacosTopology {
    pub spaces: Vec<OuterMacosSpace>,
    pub windows: Vec<OuterMacosWindow>,
    pub focused_window_id: Option<u64>,
    /// The frames of the ordinary windows in the active spaces.
    pub rects: Vec<DirectedRect>,
}

/// The desktop, over plain sequences.
pub struct OuterModel {
    pub spaces: Seq<OuterMacosSpace>,
    pub windows: Seq<OuterMacosWindow>,
    pub focused_window_id: Option<u64>,
    pub rects: Seq<DirectedRect>,
}

impl View for OuterMacosTopology {
    type V = OuterModel;

    open spec fn view(&self) -> OuterModel {
        OuterModel {
            spaces: self.spaces@,
            windows: self.windows@,
            focused_window_id: self.focused_window_id,
            rects: self.rects@,
        }
    }
}

/// Where a focus command leads.
#[derive(Clone, Copy, Debug, PartialEq, Eq)]
pub enum FocusTarget {
    SameSpace { window_id: u64 },
    CrossSpace { target_space_id: u64 },
}

/// Where a move command leads.
#[derive(Clone, Copy, Debug, PartialEq, Eq)]
pub enum MoveTarget {
    NeighborSwap {
        source_window_id: u64,
        source_frame: Rect,
        target_window_id: u64,
        target_frame: Rect,
    },
    CrossSpace { window_id: u64, target_space_id: u64 },
}

/// The space that a native space stands for.
pub open spec fn outer_space_of(space: NativeSpaceSnapshot) -> OuterMacosSpace {
    OuterMacosSpace {
        id: space.id,
        display_index: space.display_index,
        active: space.active,
        kind: space.kind,
    }
}

/// The frame as a rectangle, where there is one.
pub open spec fn optional_rect(bounds: Option<types::NativeBounds>) -> Option<Rect> {
    match bounds {
        Some(bounds) => Some(types::rect_of(bounds)),
        None => None,
    }
}

/// The window that a native window stands for.
pub open spec fn outer_window_of(window: NativeWindowSnapshot) -> OuterMacosWindow {
    OuterMacosWindow {
        id: window.id,
        pid: window.pid,
        space_id: window.space_id,
        bounds: optional_rect(window.bounds),
        level: window.level,
        order_index: window.order_index,
    }
}

/// `window` is an ordinary window with a frame in an active space.
pub open spec fn is_tile(window: NativeWindowSnapshot, active: Set<u64>) -> bool {
    active.contains(window.space_id) && window.level == 0 && window.bounds is Some
}

/// The frame of a window, with the window's identifier.
pub open spec fn tile_rect(window: NativeWindowSnapshot) -> DirectedRect {
    DirectedRect { id: window.id, rect: types::rect_of(window.bounds->0) }
}

/// The frames of the ordinary windows in the active spaces.
pub open spec fn tile_rects(windows: Seq<NativeWindowSnapshot>, active: Set<u64>) -> Seq<
    DirectedRect,
> {
    windows.filter(|window: NativeWindowSnapshot| is_tile(window, active)).map_values(
        |window: NativeWindowSnapshot| tile_rect(window),
    )
}

/// The desktop that a snapshot shows.
pub open spec fn outer_model(snapshot: NativeDesktopSnapshot) -> OuterModel {
    OuterModel {
        spaces: snapshot.spaces@.map_values(|space: NativeSpaceSnapshot| outer_space_of(space)),
        windows: snapshot.windows@.map_values(
            |window: NativeWindowSnapshot| outer_window_of(window),
        ),
        focused_window_id: snapshot.focused_window_id,
        rects: tile_rects(snapshot.windows@, snapshot.active_space_ids@),
    }
}

/// Restates a snapshot as the desktop that it shows.
pub fn outer_topology_from_native_snapshot(snapshot: &NativeDesktopSnapshot) -> (result:
    OuterMacosTopology)
    ensures
        result@ == outer_model(*snapshot),
{
    let mut spaces: Vec<OuterMacosSpace> = Vec::new();
    let mut at: usize = 0;
    while at < snapshot.spaces.len()
        invariant
            at <= snapshot.spaces.len(),
            spaces.len() == at,
            forall|i: int|
                0 <= i < at ==> #[trigger] spaces@[i] == outer_space_of(snapshot.spaces@[i]),
        decreases snapshot.spaces.len() - at,
    {
        let space: NativeSpaceSnapshot = snapshot.spaces[at];
        spaces.push(
            OuterMacosSpace {
                id: space.id,
                display_index: space.display_index,
                active: space.active,
                kind: space.kind,
            },
        );
        at += 1;
    }
    let ghost active = snapshot.active_space_ids@;
    let ghost keep = |window: NativeWindowSnapshot| is_tile(window, active);
    let ghost framed = |window: NativeWindowSnapshot| tile_rect(window);
    let mut windows: Vec<OuterMacosWindow> = Vec::new();
    let mut rects: Vec<DirectedRect> = Vec::new();
    let mut at: usize = 0;
    proof {
        reveal(Seq::filter);
        assert(snapshot.windows@.take(0) =~= Seq::empty());
        assert(rects@ =~= snapshot.windows@.take(0).filter(keep).map_values(framed));
    }
    while at < snapshot.windows.len()
        invariant
            at <= snapshot.windows.len(),
            active == snapshot.active_space_ids@,
            keep == (|window: NativeWindowSnapshot| is_tile(window, active)),
            framed == (|window: NativeWindowSnapshot| tile_rect(window)),
            windows.len() == at,
            forall|i: int|
                0 <= i < at ==> #[trigger] windows@[i] == outer_window_of(snapshot.windows@[i]),
            rects@ == snapshot.windows@.take(at as int).filter(keep).map_values(framed),
        decreases snapshot.windows.len() - at,
    {
        let window: &NativeWindowSnapshot = &snapshot.windows[at];
        let bounds: Option<Rect> = match window.bounds {
            Some(bounds) => Some(rect_from_native(bounds)),
            None => None,
        };
        windows.push(
            OuterMacosWindow {
                id: window.id,
                pid: window.pid,
                space_id: window.space_id,
                bounds,
                level: window.level,
                order_index: window.order_index,
            },
        );
        let ghost kept = snapshot.windows@.take(at as int).filter(keep);
        proof {
            select::lemma_filter_step(snapshot.windows@, keep, at as int);
        }
        if let Some(rect) = bounds {
            if snapshot.active_space_ids.contains(&window.space_id) && window.level == 0 {
                rects.push(DirectedRect { id: window.id, rect });
                assert(rects@ =~= kept.push(*window).map_values(framed));
            }
        }
        at += 1;
    }
    assert(snapshot.windows@.take(snapshot.windows@.len() as int) =~= snapshot.windows@);
    assert(spaces@ =~= outer_model(*snapshot).spaces);
    assert(windows@ =~= outer_model(*snapshot).windows);
    OuterMacosTopology { spaces, windows, focused_window_id: snapshot.focused_window_id, rects }
}

/// Which windows carry the identifier `id`.
pub open spec fn outer_with_id(windows: Seq<OuterMacosWindow>, id: u64) -> Seq<bool> {
    Seq::new(windows.len(), |i: int| windows[i].id == id)
}

/// Which spaces carry the identifier `id`.
pub open spec fn outer_spaces_with_id(spaces: Seq<OuterMacosSpace>, id: u64) -> Seq<bool> {
    Seq::new(spaces.len(), |i: int| spaces[i].id == id)
}

/// Front-to-back rank of a window: by order index, then by identifier.
pub open spec fn outer_active_rank(window: OuterMacosWindow) -> select::Rank {
    (snapshot::order_place(window.order_index), window.id as int, 0, 0)
}

/// Rank of a window by how far out it lies towards `direction`; of equally far windows the
/// frontmost ranks highest.
pub open spec fn outer_edge_rank(window: OuterMacosWindow, direction: Direction) -> select::Rank {
    (
        topology::reach(direction, window.bounds->0),
        -snapshot::order_place(window.order_index),
        -(window.id as int),
        0,
    )
}

impl OuterModel {
    /// The first window with the identifier `id`.
    pub open spec fn window(self, id: u64) -> Option<OuterMacosWindow> {
        match select::first_set(outer_with_id(self.windows, id)) {
            Some(at) => Some(self.windows[at]),
            None => None,
        }
    }

    /// The first space with the identifier `id`.
    pub open spec fn space(self, id: u64) -> Option<OuterMacosSpace> {
        match select::first_set(outer_spaces_with_id(self.spaces, id)) {
            Some(at) => Some(self.spaces[at]),
            None => None,
        }
    }

    /// The display that shows the space with the identifier `id`.
    pub open spec fn display(self, id: u64) -> Option<usize> {
        match self.space(id) {
            Some(space) => Some(space.display_index),
            None => None,
        }
    }

    /// The space with the identifier `id` is listed and active.
    pub open spec fn is_active(self, id: u64) -> bool {
        self.space(id) matches Some(space) && space.active
    }

    /// Front-to-back ranks of the windows that lie in an active space.
    pub open spec fn active_ranks(self) -> Seq<Option<select::Rank>> {
        Seq::new(
            self.windows.len(),
            |i: int|
                if self.is_active(self.windows[i].space_id) {
                    Some(outer_active_rank(self.windows[i]))
                } else {
                    None
                },
        )
    }

    /// The window that is named as focused, if it is listed.
    pub open spec fn named(self) -> Option<OuterMacosWindow> {
        match self.focused_window_id {
            Some(id) => self.window(id),
            None => None,
        }
    }

    /// The window that has the focus: the one that is named, and if that is not listed, the
    /// frontmost window of an active space.
    pub open spec fn focused(self) -> Option<OuterMacosWindow> {
        match self.named() {
            Some(window) => Some(window),
            None => match select::first_least(self.active_ranks()) {
                Some(at) => Some(self.windows[at]),
                None => None,
            },
        }
    }

    /// `rect` belongs to a listed window on the given display.
    pub open spec fn is_on_display(self, rect: DirectedRect, display: usize) -> bool {
        self.window(rect.id) matches Some(window) && self.display(window.space_id) == Some(display)
    }

    /// The frames among which a command may choose, seen from a space: those on its display, or
    /// all of them where that leaves none.
    pub open spec fn nearby_rects(self, space_id: u64) -> Seq<DirectedRect> {
        match self.display(space_id) {
            Some(display) => {
                let here = self.rects.filter(
                    |rect: DirectedRect| self.is_on_display(rect, display),
                );
                if here.len() > 0 {
                    here
                } else {
                    self.rects
                }
            },
            None => self.rects,
        }
    }

    /// The frames among which a focus command may choose: the nearby ones, and the frame of the
    /// focused window itself.
    pub open spec fn focus_rects(self, focused: OuterMacosWindow) -> Seq<DirectedRect> {
        let nearby = self.nearby_rects(focused.space_id);
        if focused.bounds is Some && !has_rect(nearby, focused.id) {
            nearby.push(DirectedRect { id: focused.id, rect: focused.bounds->0 })
        } else {
            nearby
        }
    }

    /// The window at `i` is an ordinary one with a frame in the given space.
    pub open spec fn is_framed(self, i: int, space_id: u64) -> bool {
        &&& self.windows[i].space_id == space_id
        &&& self.windows[i].level == 0
        &&& self.windows[i].bounds is Some
    }

    /// No ordinary window in the space of `focused` reaches further towards `direction`, and some
    /// ordinary window reaches exactly as far.
    pub open spec fn is_outermost(self, focused: OuterMacosWindow, direction: Direction) -> bool {
        &&& focused.bounds is Some
        &&& forall|i: int|
            0 <= i < self.windows.len() && #[trigger] self.is_framed(i, focused.space_id)
                ==> topology::reach(direction, self.windows[i].bounds->0) <= topology::reach(
                direction,
                focused.bounds->0,
            )
        &&& exists|i: int|
            0 <= i < self.windows.len() && #[trigger] self.is_framed(i, focused.space_id)
                && topology::reach(direction, self.windows[i].bounds->0) == topology::reach(
                direction,
                focused.bounds->0,
            )
    }

    /// The space at `i` shares a display with the one at `at` and can be switched to.
    pub open spec fn is_reachable(self, at: int, i: int) -> bool {
        &&& self.spaces[i].display_index == self.spaces[at].display_index
        &&& self.spaces[i].kind != SpaceKind::StageManagerOpaque
    }

    /// Which spaces before the one at `at` can be switched to, the nearest first.
    pub open spec fn reachable_before(self, at: int) -> Seq<bool> {
        Seq::new(at as nat, |i: int| self.is_reachable(at, at - 1 - i))
    }

    /// Which spaces after the one at `at` can be switched to, the nearest first.
    pub open spec fn reachable_after(self, at: int) -> Seq<bool> {
        Seq::new((self.spaces.len() - at - 1) as nat, |i: int| self.is_reachable(at, at + 1 + i))
    }

    /// The nearest space towards `direction` on the same display that can be switched to.
    pub open spec fn adjacent_space(self, space_id: u64, direction: Direction) -> Option<u64> {
        match select::first_set(outer_spaces_with_id(self.spaces, space_id)) {
            Some(at) => match direction {
                Direction::West => match select::first_set(self.reachable_before(at)) {
                    Some(i) => Some(self.spaces[at - 1 - i].id),
                    None => None,
                },
                Direction::East => match select::first_set(self.reachable_after(at)) {
                    Some(i) => Some(self.spaces[at + 1 + i].id),
                    None => None,
                },
                Direction::North | Direction::South => None,
            },
            None => None,
        }
    }

    /// The window with the identifier `id` has a frame that reaches no further towards
    /// `direction` than `source` does.
    pub open spec fn stays_behind(self, source: Rect, id: u64, direction: Direction) -> bool {
        match self.window(id) {
            Some(window) => window.bounds is Some && topology::reach(direction, window.bounds->0)
                <= topology::reach(direction, source),
            None => false,
        }
    }

    /// The command leads on to the next space: there is one, the focus is at the edge, and the
    /// window that was chosen instead does not lie further out.
    pub open spec fn escapes(
        self,
        focused: OuterMacosWindow,
        direction: Direction,
        target_id: u64,
    ) -> bool {
        &&& self.adjacent_space(focused.space_id, direction) is Some
        &&& self.is_outermost(focused, direction)
        &&& self.stays_behind(focused.bounds->0, target_id, direction)
    }

    /// What becomes of the window that was chosen as the focus target.
    pub open spec fn kept_target(
        self,
        focused: OuterMacosWindow,
        direction: Direction,
        chosen: Option<u64>,
    ) -> Option<u64> {
        match chosen {
            Some(id) => if self.escapes(focused, direction, id) {
                None
            } else {
                Some(id)
            },
            None => None,
        }
    }

    /// The space that a command leads to when no window of the same space is its target.
    pub open spec fn next_space(
        self,
        focused: OuterMacosWindow,
        direction: Direction,
        none: MacosNativeOperationError,
    ) -> Result<u64, DesktopError> {
        match self.adjacent_space(focused.space_id, direction) {
            Some(id) => match self.space(id) {
                Some(space) => if space.kind == SpaceKind::StageManagerOpaque {
                    Err(
                        DesktopError::Operation(
                            MacosNativeOperationError::UnsupportedStageManagerSpace(id),
                        ),
                    )
                } else {
                    Ok(id)
                },
                None => Err(DesktopError::Operation(MacosNativeOperationError::MissingSpace(id))),
            },
            None => Err(DesktopError::Operation(none)),
        }
    }

    /// Where a focus command leads when `chosen` is the closest window towards `direction`.
    pub open spec fn focus_target(
        self,
        focused: OuterMacosWindow,
        direction: Direction,
        chosen: Option<u64>,
    ) -> Result<FocusTarget, DesktopError> {
        match self.kept_target(focused, direction, chosen) {
            Some(window_id) => Ok(FocusTarget::SameSpace { window_id }),
            None => match self.next_space(
                focused,
                direction,
                MacosNativeOperationError::NoDirectionalFocusTarget(
                    types::native_direction(direction),
                ),
            ) {
                Ok(target_space_id) => Ok(FocusTarget::CrossSpace { target_space_id }),
                Err(error) => Err(error),
            },
        }
    }

    /// The frame of the window with the identifier `id`.
    pub open spec fn frame(self, id: u64) -> Option<Rect> {
        match self.window(id) {
            Some(window) => window.bounds,
            None => None,
        }
    }

    /// The window that a move command swaps the focused window with when `chosen` is the closest
    /// window towards `direction`.
    pub open spec fn swap_target(
        self,
        focused: OuterMacosWindow,
        direction: Direction,
        chosen: Option<u64>,
    ) -> Result<Option<MoveTarget>, DesktopError> {
        match self.kept_target(focused, direction, chosen) {
            Some(id) => if focused.bounds is None {
                Err(
                    DesktopError::Operation(MacosNativeOperationError::MissingWindowFrame(focused.id)),
                )
            } else if self.frame(id) is None {
                Err(DesktopError::Operation(MacosNativeOperationError::MissingWindowFrame(id)))
            } else {
                Ok(
                    Some(
                        MoveTarget::NeighborSwap {
                            source_window_id: focused.id,
                            source_frame: focused.bounds->0,
                            target_window_id: id,
                            target_frame: self.frame(id)->0,
                        },
                    ),
                )
            },
            None => Ok(None),
        }
    }

    /// Where a move command leads when `chosen` is the closest window towards `direction`.
    pub open spec fn move_target(
        self,
        focused: OuterMacosWindow,
        direction: Direction,
        chosen: Option<u64>,
    ) -> Result<MoveTarget, DesktopError> {
        match self.swap_target(focused, direction, chosen) {
            Ok(Some(target)) => Ok(target),
            Ok(None) => match self.next_space(
                focused,
                direction,
                MacosNativeOperationError::NoDirectionalMoveTarget(
                    types::native_direction(direction),
                ),
            ) {
                Ok(target_space_id) => Ok(
                    MoveTarget::CrossSpace { window_id: focused.id, target_space_id },
                ),
                Err(error) => Err(error),
            },
            Err(error) => Err(error),
        }
    }

    /// Where a focus command leads from the focused window.
    pub open spec fn focus_command(self, direction: Direction, chosen: Option<u64>) -> Result<
        FocusTarget,
        DesktopError,
    > {
        match self.focused() {
            Some(focused) => self.focus_target(focused, direction, chosen),
            None => Err(DesktopError::NoFocusedWindow),
        }
    }

    /// Where a move command leads from the focused window.
    pub open spec fn move_command(self, direction: Direction, chosen: Option<u64>) -> Result<
        MoveTarget,
        DesktopError,
    > {
        match self.focused() {
            Some(focused) => self.move_target(focused, direction, chosen),
            None => Err(DesktopError::NoFocusedWindow),
        }
    }

    /// No two spaces share an identifier.
    pub open spec fn spaces_are_distinct(self) -> bool {
        forall|i: int, j: int|
            0 <= i < self.spaces.len() && 0 <= j < self.spaces.len() && (#[trigger] self.spaces[i]).id
                == (#[trigger] self.spaces[j]).id ==> i == j
    }

    /// Edge ranks of the ordinary windows with a frame in a space.
    pub open spec fn edge_ranks(self, space_id: u64, direction: Direction) -> Seq<
        Option<select::Rank>,
    > {
        Seq::new(
            self.windows.len(),
            |i: int|
                if self.is_framed(i, space_id) {
                    Some(outer_edge_rank(self.windows[i], direction))
                } else {
                    None
                },
        )
    }

    /// Front-to-back ranks of the ordinary windows in a space.
    pub open spec fn front_ranks(self, space_id: u64) -> Seq<Option<select::Rank>> {
        Seq::new(
            self.windows.len(),
            |i: int|
                if self.windows[i].space_id == space_id && self.windows[i].level == 0 {
                    Some(outer_active_rank(self.windows[i]))
                } else {
                    None
                },
        )
    }

    /// The ordinary window to focus in a space that is entered from `direction`'s side: the
    /// outermost one that has a frame, or else the frontmost one.
    pub open spec fn best_window(self, space_id: u64, direction: Direction) -> Option<
        OuterMacosWindow,
    > {
        match select::last_greatest(self.edge_ranks(space_id, direction)) {
            Some(at) => Some(self.windows[at]),
            None => match select::first_least(self.front_ranks(space_id)) {
                Some(at) => Some(self.windows[at]),
                None => None,
            },
        }
    }
}

/// Some frame carries the identifier `id`.
pub open spec fn has_rect(rects: Seq<DirectedRect>, id: u64) -> bool {
    exists|i: int| 0 <= i < rects.len() && (#[trigger] rects[i]).id == id
}

fn outer_active_key(window: &OuterMacosWindow) -> (result: Key)
    ensures
        result@ == outer_active_rank(*window),
{
    Key { first: order_key(window.order_index), second: window.id as i128, third: 0, fourth: 0 }
}

fn outer_edge_key(window: &OuterMacosWindow, bounds: Rect, direction: Direction) -> (result: Key)
    requires
        window.bounds == Some(bounds),
    ensures
        result@ == outer_edge_rank(*window, direction),
{
    Key {
        first: reach_towards(direction, bounds) as i128,
        second: -order_key(window.order_index),
        third: -(window.id as i128),
        fourth: 0,
    }
}

fn outer_window_index(topology: &OuterMacosTopology, id: u64) -> (result: Option<usize>)
    ensures
        select::position(result) == select::first_set(outer_with_id(topology@.windows, id)),
        result matches Some(at) ==> at < topology.windows.len(),
{
    let ghost flags = outer_with_id(topology@.windows, id);
    let mut at: usize = 0;
    while at < topology.windows.len()
        invariant
            at <= topology.windows.len(),
            flags == outer_with_id(topology@.windows, id),
            forall|i: int| 0 <= i < at ==> !#[trigger] flags[i],
        decreases topology.windows.len() - at,
    {
        if topology.windows[at].id == id {
            proof {
                select::lemma_first_set(flags, at as int);
            }
            return Some(at);
        }
        assert(!flags[at as int]);
        at += 1;
    }
    proof {
        select::lemma_none_set(flags);
    }
    None
}

/// Finds the window with the identifier `id`.
pub fn outer_window(topology: &OuterMacosTopology, id: u64) -> (result: Option<OuterMacosWindow>)
    ensures
        result == topology@.window(id),
{
    match outer_window_index(topology, id) {
        Some(at) => Some(topology.windows[at]),
        None => None,
    }
}

fn outer_space_index(topology: &OuterMacosTopology, space_id: u64) -> (result: Option<usize>)
    ensures
        select::position(result) == select::first_set(
            outer_spaces_with_id(topology@.spaces, space_id),
        ),
        result matches Some(at) ==> at < topology.spaces.len(),
{
    let ghost flags = outer_spaces_with_id(topology@.spaces, space_id);
    let mut at: usize = 0;
    while at < topology.spaces.len()
        invariant
            at <= topology.spaces.len(),
            flags == outer_spaces_with_id(topology@.spaces, space_id),
            forall|i: int| 0 <= i < at ==> !#[trigger] flags[i],
        decreases topology.spaces.len() - at,
    {
        if topology.spaces[at].id == space_id {
            proof {
                select::lemma_first_set(flags, at as int);
            }
            return Some(at);
        }
        assert(!flags[at as int]);
        at += 1;
    }
    proof {
        select::lemma_none_set(flags);
    }
    None
}

/// Finds the space with the identifier `space_id`.
pub fn outer_space(topology: &OuterMacosTopology, space_id: u64) -> (result: Option<
    OuterMacosSpace,
>)
    ensures
        result == topology@.space(space_id),
{
    match outer_space_index(topology, space_id) {
        Some(at) => Some(topology.spaces[at]),
        None => None,
    }
}

/// Finds the display that shows a space.
pub fn outer_display_index_for_space(topology: &OuterMacosTopology, space_id: u64) -> (result:
    Option<usize>)
    ensures
        result == topology@.display(space_id),
{
    match outer_space(topology, space_id) {
        Some(space) => Some(space.display_index),
        None => None,
    }
}

/// Finds the window that has the focus.
pub fn resolved_outer_focused_window(topology: &OuterMacosTopology) -> (result: Option<
    OuterMacosWindow,
>)
    ensures
        result == topology@.focused(),
{
    if let Some(id) = topology.focused_window_id {
        if let Some(window) = outer_window(topology, id) {
            return Some(window);
        }
    }
    let mut keys: Vec<Option<Key>> = Vec::new();
    let mut at: usize = 0;
    while at < topology.windows.len()
        invariant
            at <= topology.windows.len(),
            keys.len() == at,
            select::ranks_of(keys@) == topology@.active_ranks().take(at as int),
        decreases topology.windows.len() - at,
    {
        let window: &OuterMacosWindow = &topology.windows[at];
        let active: bool = match outer_space(topology, window.space_id) {
            Some(space) => space.active,
            None => false,
        };
        let key: Option<Key> = if active {
            Some(outer_active_key(window))
        } else {
            None
        };
        let ghost before = keys@;
        keys.push(key);
        assert(select::ranks_of(keys@) =~= topology@.active_ranks().take(at + 1)) by {
            assert(select::ranks_of(before) == topology@.active_ranks().take(at as int));
            assert forall|i: int| 0 <= i <= at implies #[trigger] select::ranks_of(keys@)[i]
                == topology@.active_ranks()[i] by {
                if i < at {
                    assert(select::ranks_of(keys@)[i] == select::ranks_of(before)[i]);
                }
            }
        }
        at += 1;
    }
    assert(topology@.active_ranks().take(at as int) =~= topology@.active_ranks());
    match select::first_least_key(&keys) {
        Some(at) => Some(topology.windows[at]),
        None => None,
    }
}

fn nearby_rects(topology: &OuterMacosTopology, space_id: u64) -> (result: Vec<DirectedRect>)
    ensures
        result@ == topology@.nearby_rects(space_id),
{
    if let Some(display) = outer_display_index_for_space(topology, space_id) {
        let ghost keep = |rect: DirectedRect| topology@.is_on_display(rect, display);
        let mut here: Vec<DirectedRect> = Vec::new();
        let mut at: usize = 0;
        proof {
            reveal(Seq::filter);
            assert(topology.rects@.take(0) =~= Seq::empty());
        }
        while at < topology.rects.len()
            invariant
                at <= topology.rects.len(),
                keep == (|rect: DirectedRect| topology@.is_on_display(rect, display)),
                here@ == topology.rects@.take(at as int).filter(keep),
            decreases topology.rects.len() - at,
        {
            let rect: DirectedRect = topology.rects[at];
            proof {
                select::lemma_filter_step(topology.rects@, keep, at as int);
            }
            if let Some(window) = outer_window(topology, rect.id) {
                if let Some(found) = outer_display_index_for_space(topology, window.space_id) {
                    if found == display {
                        here.push(rect);
                    }
                }
            }
            at += 1;
        }
        assert(topology.rects@.take(at as int) =~= topology.rects@);
        if here.len() > 0 {
            return here;
        }
    }
    topology.rects.clone()
}

/// Collects the frames among which a focus command may choose.
pub fn focus_rects(topology: &OuterMacosTopology, focused: &OuterMacosWindow) -> (result: Vec<
    DirectedRect,
>)
    ensures
        result@ == topology@.focus_rects(*focused),
{
    let mut rects: Vec<DirectedRect> = nearby_rects(topology, focused.space_id);
    if let Some(rect) = focused.bounds {
        let mut at: usize = 0;
        while at < rects.len()
            invariant
                at <= rects.len(),
                rects@ == topology@.nearby_rects(focused.space_id),
                forall|i: int| 0 <= i < at ==> (#[trigger] rects@[i]).id != focused.id,
            decreases rects.len() - at,
        {
            if rects[at].id == focused.id {
                assert(has_rect(rects@, focused.id));
                return rects;
            }
            at += 1;
        }
        rects.push(DirectedRect { id: focused.id, rect });
    }
    rects
}

/// Collects the frames among which a move command may choose.
pub fn move_rects(topology: &OuterMacosTopology, focused: &OuterMacosWindow) -> (result: Vec<
    DirectedRect,
>)
    ensures
        result@ == topology@.nearby_rects(focused.space_id),
{
    nearby_rects(topology, focused.space_id)
}

/// Tells whether no ordinary window of the same space lies further out than the focused one.
pub fn outer_focused_window_is_on_outer_edge(
    topology: &OuterMacosTopology,
    focused: &OuterMacosWindow,
    direction: Direction,
) -> (result: bool)
    ensures
        result == topology@.is_outermost(*focused, direction),
{
    let focused_bounds: Rect = match focused.bounds {
        Some(bounds) => bounds,
        None => {
            return false;
        },
    };
    let edge: i64 = reach_towards(direction, focused_bounds);
    let mut reached: bool = false;
    let mut at: usize = 0;
    while at < topology.windows.len()
        invariant
            at <= topology.windows.len(),
            focused.bounds == Some(focused_bounds),
            edge == topology::reach(direction, focused_bounds),
            forall|i: int|
                0 <= i < at && #[trigger] topology@.is_framed(i, focused.space_id)
                    ==> topology::reach(direction, topology@.windows[i].bounds->0) <= edge,
            reached == exists|i: int|
                0 <= i < at && #[trigger] topology@.is_framed(i, focused.space_id)
                    && topology::reach(direction, topology@.windows[i].bounds->0) == edge,
        decreases topology.windows.len() - at,
    {
        let window: &OuterMacosWindow = &topology.windows[at];
        let ghost framed = topology@.is_framed(at as int, focused.space_id);
        if window.space_id == focused.space_id && window.level == 0 {
            if let Some(bounds) = window.bounds {
                let candidate: i64 = reach_towards(direction, bounds);
                assert(framed);
                if candidate > edge {
                    return false;
                }
                if candidate == edge {
                    reached = true;
                }
            }
        }
        at += 1;
    }
    reached
}

/// Finds the nearest space towards `direction` on the same display that can be switched to.
pub fn outer_adjacent_space_in_direction(
    topology: &OuterMacosTopology,
    source_space_id: u64,
    direction: Direction,
) -> (result: Option<u64>)
    ensures
        result == topology@.adjacent_space(source_space_id, direction),
{
    let source: usize = match outer_space_index(topology, source_space_id) {
        Some(at) => at,
        None => {
            return None;
        },
    };
    let display: usize = topology.spaces[source].display_index;
    match direction {
        Direction::West => {
            let ghost flags = topology@.reachable_before(source as int);
            let mut step: usize = 0;
            while step < source
                invariant
                    step <= source < topology.spaces.len(),
                    display == topology.spaces@[source as int].display_index,
                    flags == topology@.reachable_before(source as int),
                    forall|i: int| 0 <= i < step ==> !#[trigger] flags[i],
                    select::first_set(outer_spaces_with_id(topology@.spaces, source_space_id))
                        == Some(source as int),
                    direction == Direction::West,
                decreases source - step,
            {
                let space: OuterMacosSpace = topology.spaces[source - 1 - step];
                let ghost here = flags[step as int];
                if space.display_index == display && space.kind != SpaceKind::StageManagerOpaque {
                    proof {
                        assert(here);
                        select::lemma_first_set(flags, step as int);
                    }
                    return Some(space.id);
                }
                assert(!here);
                step += 1;
            }
            proof {
                select::lemma_none_set(flags);
            }
            None
        },
        Direction::East => {
            let ghost flags = topology@.reachable_after(source as int);
            let mut at: usize = source + 1;
            while at < topology.spaces.len()
                invariant
                    source < at <= topology.spaces.len(),
                    display == topology.spaces@[source as int].display_index,
                    flags == topology@.reachable_after(source as int),
                    forall|i: int| 0 <= i < at - source - 1 ==> !#[trigger] flags[i],
                    select::first_set(outer_spaces_with_id(topology@.spaces, source_space_id))
                        == Some(source as int),
                    direction == Direction::East,
                decreases topology.spaces.len() - at,
            {
                let space: OuterMacosSpace = topology.spaces[at];
                let ghost here = flags[at - source - 1];
                if space.display_index == display && space.kind != SpaceKind::StageManagerOpaque {
                    proof {
                        assert(here);
                        select::lemma_first_set(flags, at - source - 1);
                    }
                    return Some(space.id);
                }
                assert(!here);
                at += 1;
            }
            proof {
                select::lemma_none_set(flags);
            }
            None
        },
        Direction::North | Direction::South => None,
    }
}

/// Tells whether a command leads on to the next space instead of to the chosen window.
pub fn outer_should_escape_to_adjacent_space(
    topology: &OuterMacosTopology,
    focused: &OuterMacosWindow,
    direction: Direction,
    target_id: u64,
) -> (result: bool)
    ensures
        result == topology@.escapes(*focused, direction, target_id),
{
    if outer_adjacent_space_in_direction(topology, focused.space_id, direction).is_none() {
        return false;
    }
    if !outer_focused_window_is_on_outer_edge(topology, focused, direction) {
        return false;
    }
    match (focused.bounds, outer_window(topology, target_id)) {
        (Some(source), Some(target)) => match target.bounds {
            Some(bounds) => reach_towards(direction, bounds) <= reach_towards(direction, source),
            None => false,
        },
        _ => false,
    }
}

/// Decides whether the chosen window is the target of a command, or the next space is.
pub fn outer_same_space_focus_target(
    topology: &OuterMacosTopology,
    focused: &OuterMacosWindow,
    direction: Direction,
    chosen: Option<u64>,
) -> (result: Option<u64>)
    ensures
        result == topology@.kept_target(*focused, direction, chosen),
{
    match chosen {
        Some(id) => if outer_should_escape_to_adjacent_space(topology, focused, direction, id) {
            None
        } else {
            Some(id)
        },
        None => None,
    }
}

fn next_space(
    topology: &OuterMacosTopology,
    focused: &OuterMacosWindow,
    direction: Direction,
    none: MacosNativeOperationError,
) -> (result: Result<u64, DesktopError>)
    ensures
        result == topology@.next_space(*focused, direction, none),
{
    match outer_adjacent_space_in_direction(topology, focused.space_id, direction) {
        Some(id) => match outer_space(topology, id) {
            Some(space) => if space.kind == SpaceKind::StageManagerOpaque {
                Err(
                    DesktopError::Operation(
                        MacosNativeOperationError::UnsupportedStageManagerSpace(id),
                    ),
                )
            } else {
                Ok(id)
            },
            None => Err(DesktopError::Operation(MacosNativeOperationError::MissingSpace(id))),
        },
        None => Err(DesktopError::Operation(none)),
    }
}

/// Decides where a focus command leads, given the closest window towards `direction` among the
/// frames that the command may choose from.
pub fn select_focus_target_from_outer_topology(
    topology: &OuterMacosTopology,
    direction: Direction,
    chosen: Option<u64>,
) -> (result: Result<FocusTarget, DesktopError>)
    ensures
        result == topology@.focus_command(direction, chosen),
{
    let focused: OuterMacosWindow = match resolved_outer_focused_window(topology) {
        Some(window) => window,
        None => {
            return Err(DesktopError::NoFocusedWindow);
        },
    };
    if let Some(window_id) = outer_same_space_focus_target(topology, &focused, direction, chosen) {
        return Ok(FocusTarget::SameSpace { window_id });
    }
    match next_space(
        topology,
        &focused,
        direction,
        MacosNativeOperationError::NoDirectionalFocusTarget(native_direction_from_outer(direction)),
    ) {
        Ok(target_space_id) => Ok(FocusTarget::CrossSpace { target_space_id }),
        Err(error) => Err(error),
    }
}

/// Decides which window the focused window is swapped with, if any.
pub fn outer_same_space_move_target(
    topology: &OuterMacosTopology,
    focused: &OuterMacosWindow,
    direction: Direction,
    chosen: Option<u64>,
) -> (result: Result<Option<MoveTarget>, DesktopError>)
    ensures
        result == topology@.swap_target(*focused, direction, chosen),
{
    let target_window_id: u64 = match outer_same_space_focus_target(topology, focused, direction, chosen) {
        Some(id) => id,
        None => {
            return Ok(None);
        },
    };
    let source_frame: Rect = match focused.bounds {
        Some(frame) => frame,
        None => {
            return Err(
                DesktopError::Operation(MacosNativeOperationError::MissingWindowFrame(focused.id)),
            );
        },
    };
    let target_bounds: Option<Rect> = match outer_window(topology, target_window_id) {
        Some(window) => window.bounds,
        None => None,
    };
    match target_bounds {
        Some(target_frame) => Ok(
            Some(
                MoveTarget::NeighborSwap {
                    source_window_id: focused.id,
                    source_frame,
                    target_window_id,
                    target_frame,
                },
            ),
        ),
        None => Err(
            DesktopError::Operation(MacosNativeOperationError::MissingWindowFrame(target_window_id)),
        ),
    }
}

/// Decides where a move command leads, given the closest window towards `direction` among the
/// frames that the command may choose from.
pub fn select_move_target_from_outer_topology(
    topology: &OuterMacosTopology,
    direction: Direction,
    chosen: Option<u64>,
) -> (result: Result<MoveTarget, DesktopError>)
    ensures
        result == topology@.move_command(direction, chosen),
{
    let focused: OuterMacosWindow = match resolved_outer_focused_window(topology) {
        Some(window) => window,
        None => {
            return Err(DesktopError::NoFocusedWindow);
        },
    };
    match outer_same_space_move_target(topology, &focused, direction, chosen) {
        Ok(Some(target)) => Ok(target),
        Ok(None) => match next_space(
            topology,
            &focused,
            direction,
            MacosNativeOperationError::NoDirectionalMoveTarget(
                native_direction_from_outer(direction),
            ),
        ) {
            Ok(target_space_id) => Ok(
                MoveTarget::CrossSpace { window_id: focused.id, target_space_id },
            ),
            Err(error) => Err(error),
        },
        Err(error) => Err(error),
    }
}

/// Picks the window to focus in a space that was just switched to.
pub fn outer_best_window_in_space(
    topology: &OuterMacosTopology,
    space_id: u64,
    direction: Direction,
) -> (result: Option<OuterMacosWindow>)
    ensures
        result == topology@.best_window(space_id, direction),
{
    let mut edges: Vec<Option<Key>> = Vec::new();
    let mut fronts: Vec<Option<Key>> = Vec::new();
    let mut at: usize = 0;
    while at < topology.windows.len()
        invariant
            at <= topology.windows.len(),
            edges.len() == at,
            fronts.len() == at,
            forall|i: int|
                0 <= i < at ==> #[trigger] select::ranks_of(edges@)[i] == topology@.edge_ranks(
                    space_id,
                    direction,
                )[i],
            forall|i: int|
                0 <= i < at ==> #[trigger] select::ranks_of(fronts@)[i] == topology@.front_ranks(
                    space_id,
                )[i],
        decreases topology.windows.len() - at,
    {
        let window: &OuterMacosWindow = &topology.windows[at];
        let ordinary: bool = window.space_id == space_id && window.level == 0;
        let edge: Option<Key> = match window.bounds {
            Some(bounds) => if ordinary {
                Some(outer_edge_key(window, bounds, direction))
            } else {
                None
            },
            None => None,
        };
        let front: Option<Key> = if ordinary {
            Some(outer_active_key(window))
        } else {
            None
        };
        let ghost edges_before = edges@;
        let ghost fronts_before = fronts@;
        edges.push(edge);
        fronts.push(front);
        proof {
            assert forall|i: int| 0 <= i <= at implies #[trigger] select::ranks_of(edges@)[i]
                == topology@.edge_ranks(space_id, direction)[i] by {
                if i < at {
                    assert(select::ranks_of(edges@)[i] == select::ranks_of(edges_before)[i]);
                }
            }
            assert forall|i: int| 0 <= i <= at implies #[trigger] select::ranks_of(fronts@)[i]
                == topology@.front_ranks(space_id)[i] by {
                if i < at {
                    assert(select::ranks_of(fronts@)[i] == select::ranks_of(fronts_before)[i]);
                }
            }
        }
        at += 1;
    }
    assert(select::ranks_of(edges@) =~= topology@.edge_ranks(space_id, direction));
    assert(select::ranks_of(fronts@) =~= topology@.front_ranks(space_id));
    match select::last_greatest_key(&edges) {
        Some(at) => Some(topology.windows[at]),
        None => match select::first_least_key(&fronts) {
            Some(at) => Some(topology.windows[at]),
            None => None,
        },
    }
}

proof fn lemma_adjacent_position(model: OuterModel, space_id: u64, direction: Direction) -> (place:
    (int, int))
    requires
        model.adjacent_space(space_id, direction) is Some,
    ensures
        ({
            let (from, to) = place;
            &&& select::is_first_set(outer_spaces_with_id(model.spaces, space_id), from)
            &&& select::first_set(outer_spaces_with_id(model.spaces, space_id)) == Some(from)
            &&& 0 <= to < model.spaces.len()
            &&& model.is_reachable(from, to)
            &&& model.adjacent_space(space_id, direction) == Some(model.spaces[to].id)
            &&& (direction == Direction::West && to < from && forall|i: int|
                to < i < from ==> !#[trigger] model.is_reachable(from, i)) || (direction
                == Direction::East && from < to && forall|i: int|
                from < i < to ==> !#[trigger] model.is_reachable(from, i))
        }),
{
    let ids = outer_spaces_with_id(model.spaces, space_id);
    select::first_set_finds_the_first(ids);
    let from = select::first_set(ids)->0;
    if direction == Direction::West {
        let flags = model.reachable_before(from);
        select::first_set_finds_the_first(flags);
        let step = select::first_set(flags)->0;
        let to = from - 1 - step;
        assert(flags[step]);
        assert forall|i: int| to < i < from implies !#[trigger] model.is_reachable(from, i) by {
            assert(!flags[from - 1 - i]);
        }
        (from, to)
    } else {
        let flags = model.reachable_after(from);
        select::first_set_finds_the_first(flags);
        let step = select::first_set(flags)->0;
        let to = from + 1 + step;
        assert(flags[step]);
        assert forall|i: int| from < i < to implies !#[trigger] model.is_reachable(from, i) by {
            assert(!flags[i - from - 1]);
        }
        (from, to)
    }
}

/// The next space is on the same display, is no Stage Manager space, lies on the side that was
/// asked for, and no other such space lies in between. Only west and east lead to another space.
pub proof fn adjacent_spaces_are_the_nearest(model: OuterModel, space_id: u64, direction: Direction)
    ensures
        direction == Direction::North || direction == Direction::South ==> model.adjacent_space(
            space_id,
            direction,
        ) is None,
        model.adjacent_space(space_id, direction) matches Some(next) ==> exists|from: int, to: int|
            #![trigger model.is_reachable(from, to)]
            {
                &&& select::is_first_set(outer_spaces_with_id(model.spaces, space_id), from)
                &&& 0 <= to < model.spaces.len()
                &&& model.spaces[to].id == next
                &&& model.is_reachable(from, to)
                &&& if direction == Direction::West {
                    to < from && forall|i: int|
                        to < i < from ==> !#[trigger] model.is_reachable(from, i)
                } else {
                    from < to && forall|i: int|
                        from < i < to ==> !#[trigger] model.is_reachable(from, i)
                }
            },
{
    if model.adjacent_space(space_id, direction) is Some {
        let (from, to) = lemma_adjacent_position(model, space_id, direction);
        assert(model.is_reachable(from, to));
    }
}

/// Where identifiers are distinct, the next space can always be entered, and going back from it
/// leads to where one came from, unless that is a Stage Manager space.
pub proof fn adjacent_spaces_lead_back(model: OuterModel, space_id: u64, direction: Direction)
    requires
        model.spaces_are_distinct(),
        model.adjacent_space(space_id, direction) is Some,
    ensures
        ({
            let next = model.adjacent_space(space_id, direction)->0;
            &&& next != space_id
            &&& model.space(next) matches Some(space) && space.kind != SpaceKind::StageManagerOpaque
            &&& model.display(next) == model.display(space_id)
            &&& model.space(space_id)->0.kind != SpaceKind::StageManagerOpaque
                ==> model.adjacent_space(next, direction.spec_opposite()) == Some(space_id)
        }),
{
    let (from, to) = lemma_adjacent_position(model, space_id, direction);
    let next = model.spaces[to].id;
    let ids = outer_spaces_with_id(model.spaces, next);
    assert forall|i: int| 0 <= i < to implies !#[trigger] ids[i] by {
        if ids[i] {
            assert(model.spaces[i].id == model.spaces[to].id);
        }
    }
    select::lemma_first_set(ids, to);
    assert(model.spaces[from].id == space_id);
    if model.space(space_id)->0.kind != SpaceKind::StageManagerOpaque {
        if direction == Direction::West {
            let flags = model.reachable_after(to);
            let step = from - to - 1;
            assert(flags[step]) by {
                assert(model.is_reachable(to, from));
            }
            assert forall|i: int| 0 <= i < step implies !#[trigger] flags[i] by {
                assert(!model.is_reachable(from, to + 1 + i));
            }
            select::lemma_first_set(flags, step);
        } else {
            let flags = model.reachable_before(to);
            let step = to - 1 - from;
            assert(flags[step]) by {
                assert(model.is_reachable(to, from));
            }
            assert forall|i: int| 0 <= i < step implies !#[trigger] flags[i] by {
                assert(!model.is_reachable(from, to - 1 - i));
            }
            select::lemma_first_set(flags, step);
        }
    }
}

/// A command to focus or to move acts on the chosen window, and leaves every other alone, whenever
/// that window lies further out than the focused one or the command points north or south.
pub proof fn commands_prefer_windows_further_out(
    model: OuterModel,
    focused: OuterMacosWindow,
    direction: Direction,
    chosen: u64,
    source: Rect,
    target: Rect,
)
    requires
        model.focused() == Some(focused),
        focused.bounds == Some(source),
        model.frame(chosen) == Some(target),
        topology::reach(direction, target) > topology::reach(direction, source) || direction
            == Direction::North || direction == Direction::South,
    ensures
        model.focus_command(direction, Some(chosen)) == Ok::<FocusTarget, DesktopError>(
            FocusTarget::SameSpace { window_id: chosen },
        ),
        model.move_command(direction, Some(chosen)) == Ok::<MoveTarget, DesktopError>(
            MoveTarget::NeighborSwap {
                source_window_id: focused.id,
                source_frame: source,
                target_window_id: chosen,
                target_frame: target,
            },
        ),
{
}

/// Where the identifiers of spaces are distinct, a command with no window to act on leads to the
/// next space, and fails for want of a target exactly where there is no such space.
pub proof fn commands_without_a_window_lead_to_the_next_space(
    model: OuterModel,
    focused: OuterMacosWindow,
    direction: Direction,
)
    requires
        model.spaces_are_distinct(),
        model.focused() == Some(focused),
    ensures
        match model.adjacent_space(focused.space_id, direction) {
            Some(target_space_id) => {
                &&& model.focus_command(direction, None) == Ok::<FocusTarget, DesktopError>(
                    FocusTarget::CrossSpace { target_space_id },
                )
                &&& model.move_command(direction, None) == Ok::<MoveTarget, DesktopError>(
                    MoveTarget::CrossSpace { window_id: focused.id, target_space_id },
                )
            },
            None => {
                &&& model.focus_command(direction, None) == Err::<FocusTarget, DesktopError>(
                    DesktopError::Operation(
                        MacosNativeOperationError::NoDirectionalFocusTarget(
                            types::native_direction(direction),
                        ),
                    ),
                )
                &&& model.move_command(direction, None) == Err::<MoveTarget, DesktopError>(
                    DesktopError::Operation(
                        MacosNativeOperationError::NoDirectionalMoveTarget(
                            types::native_direction(direction),
                        ),
                    ),
                )
            },
        },
{
    if model.adjacent_space(focused.space_id, direction) is Some {
        adjacent_spaces_lead_back(model, focused.space_id, direction);
    }
}

/// The window to focus in a space is an ordinary window of that space, none with a frame lies
/// further out, and there is one whenever the space has an ordinary window.
pub proof fn best_window_is_the_outermost(model: OuterModel, space_id: u64, direction: Direction)
    ensures
        model.best_window(space_id, direction) is Some <==> exists|i: int|
            0 <= i < model.windows.len() && (#[trigger] model.windows[i]).space_id == space_id
                && model.windows[i].level == 0,
        model.best_window(space_id, direction) matches Some(best) ==> {
            &&& model.windows.contains(best)
            &&& best.space_id == space_id
            &&& best.level == 0
            &&& forall|i: int|
                0 <= i < model.windows.len() && #[trigger] model.is_framed(i, space_id)
                    ==> best.bounds is Some && topology::reach(
                    direction,
                    model.windows[i].bounds->0,
                ) <= topology::reach(direction, best.bounds->0)
        },
{
    let edges = model.edge_ranks(space_id, direction);
    let fronts = model.front_ranks(space_id);
    select::choices_are_optimal(edges);
    select::choices_are_optimal(fronts);
    match select::last_greatest(edges) {
        Some(at) => {
            assert(model.windows[at] == model.best_window(space_id, direction)->0);
            assert forall|i: int|
                0 <= i < model.windows.len() && #[trigger] model.is_framed(
                    i,
                    space_id,
                ) implies topology::reach(direction, model.windows[i].bounds->0)
                <= topology::reach(direction, model.windows[at].bounds->0) by {
                assert(edges[i] == Some(outer_edge_rank(model.windows[i], direction)));
            }
        },
        None => {
            assert forall|i: int|
                0 <= i < model.windows.len() implies !#[trigger] model.is_framed(i, space_id) by {
                assert(edges[i] is None);
            }
            match select::first_least(fronts) {
                Some(at) => {
                    assert(model.windows[at] == model.best_window(space_id, direction)->0);
                    assert(fronts[at] is Some);
                },
                None => {
                    assert forall|i: int| 0 <= i < model.windows.len() implies (
                    #[trigger] model.windows[i]).space_id != space_id || model.windows[i].level
                        != 0 by {
                        assert(fronts[i] is None);
                    }
                },
            }
        },
    }
}

/// Where the active spaces of a snapshot are those that its list marks as active, this view of the
/// desktop and the snapshot itself agree on which window has the focus.
pub proof fn focus_is_the_same_in_both_views(desktop: NativeDesktopSnapshot)
    requires
        forall|i: int|
            0 <= i < desktop.windows@.len() ==> (desktop.active_space_ids@.contains(
                (#[trigger] desktop.windows@[i]).space_id,
            ) <==> (snapshot::space_with_id(desktop.spaces@, desktop.windows@[i].space_id) matches
                Some(space) && space.active)),
    ensures
        outer_model(desktop).focused() == match snapshot::focused_window(desktop) {
            Some(window) => Some(outer_window_of(window)),
            None => None,
        },
{
    let model = outer_model(desktop);
    if let Some(id) = desktop.focused_window_id {
        assert(outer_with_id(model.windows, id) =~= snapshot::with_id(desktop.windows@, id));
        select::first_set_finds_the_first(snapshot::with_id(desktop.windows@, id));
    }
    let ranks = model.active_ranks();
    let native = snapshot::active_ranks(desktop.windows@, desktop.active_space_ids@);
    assert forall|i: int| 0 <= i < ranks.len() implies #[trigger] ranks[i] == native[i] by {
        let space_id = desktop.windows@[i].space_id;
        let flags = snapshot::spaces_with_id(desktop.spaces@, space_id);
        assert(outer_spaces_with_id(model.spaces, space_id) =~= flags);
        select::first_set_finds_the_first(flags);
        assert(model.windows[i] == outer_window_of(desktop.windows@[i]));
    }
    assert(ranks =~= native);
    select::choices_are_optimal(native);
}

/// The window to focus in a space is an ordinary window of that space. If an ordinary window has a
/// frame then so does it, and none reaches further; of those that reach as far none lies in front of
/// it. If none has a frame, none at all lies in front of it. Of equals the smallest identifier
/// counts.
pub proof fn entered_spaces_focus_the_frontmost_edge_window(
    topology: OuterMacosTopology,
    space_id: u64,
    direction: Direction,
    result: Option<OuterMacosWindow>,
    at: int,
)
    requires
        call_ensures(outer_best_window_in_space, (&topology, space_id, direction), result),
        0 <= at < topology.windows@.len(),
        topology.windows@[at].space_id == space_id,
        topology.windows@[at].level == 0,
    ensures
        ({
            let other = topology.windows@[at];
            &&& result matches Some(best)
            &&& topology.windows@.contains(best)
            &&& best.space_id == space_id
            &&& best.level == 0
            &&& other.bounds is Some ==> {
                &&& best.bounds is Some
                &&& topology::reach(direction, other.bounds->0) <= topology::reach(
                    direction,
                    best.bounds->0,
                )
            }
            &&& other.bounds is Some && topology::reach(direction, other.bounds->0)
                == topology::reach(direction, best.bounds->0) || best.bounds is None ==> {
                &&& !snapshot::comes_before(other.order_index, best.order_index)
                &&& other.order_index == best.order_index ==> best.id <= other.id
            }
        }),
{
    lemma_best_window(topology@, space_id, direction, at);
}

pub proof fn lemma_best_window(model: OuterModel, space_id: u64, direction: Direction, at: int)
    requires
        0 <= at < model.windows.len(),
        model.windows[at].space_id == space_id,
        model.windows[at].level == 0,
    ensures
        ({
            let other = model.windows[at];
            &&& model.best_window(space_id, direction) matches Some(best)
            &&& model.windows.contains(best)
            &&& best.space_id == space_id
            &&& best.level == 0
            &&& other.bounds is Some ==> {
                &&& best.bounds is Some
                &&& topology::reach(direction, other.bounds->0) <= topology::reach(
                    direction,
                    best.bounds->0,
                )
            }
            &&& other.bounds is Some && topology::reach(direction, other.bounds->0)
                == topology::reach(direction, best.bounds->0) || best.bounds is None ==> {
                &&& !snapshot::comes_before(other.order_index, best.order_index)
                &&& other.order_index == best.order_index ==> best.id <= other.id
            }
        }),
{
    let edges = model.edge_ranks(space_id, direction);
    let fronts = model.front_ranks(space_id);
    best_window_is_the_outermost(model, space_id, direction);
    select::choices_are_optimal(edges);
    select::choices_are_optimal(fronts);
    assert(edges[at] is Some == model.is_framed(at, space_id));
    assert(fronts[at] == Some(outer_active_rank(model.windows[at])));
    if let Some(found) = select::last_greatest(edges) {
        assert(edges[found] == Some(outer_edge_rank(model.windows[found], direction)));
    } else {
        assert(edges[at] is None);
        let found = select::first_least(fronts)->0;
        assert(fronts[found] == Some(outer_active_rank(model.windows[found])));
    }
}

/// A window, a space and its display are looked up by identifier, and the first that carries it
/// counts.
pub proof fn the_first_of_an_identifier_counts(
    topology: OuterMacosTopology,
    id: u64,
    window: Option<OuterMacosWindow>,
    space: Option<OuterMacosSpace>,
    display: Option<usize>,
    at: int,
)
    requires
        call_ensures(outer_window, (&topology, id), window),
        call_ensures(outer_space, (&topology, id), space),
        call_ensures(outer_display_index_for_space, (&topology, id), display),
    ensures
        window matches Some(window) ==> window.id == id,
        space matches Some(space) ==> space.id == id,
        0 <= at < topology.windows@.len() && topology.windows@[at].id == id && (forall|i: int|
            0 <= i < at ==> (#[trigger] topology.windows@[i]).id != id) ==> window == Some(
            topology.windows@[at],
        ),
        0 <= at < topology.spaces@.len() && topology.spaces@[at].id == id && (forall|i: int|
            0 <= i < at ==> (#[trigger] topology.spaces@[i]).id != id) ==> space == Some(
            topology.spaces@[at],
        ),
        window is None ==> forall|i: int|
            0 <= i < topology.windows@.len() ==> (#[trigger] topology.windows@[i]).id != id,
        space is None ==> forall|i: int|
            0 <= i < topology.spaces@.len() ==> (#[trigger] topology.spaces@[i]).id != id,
        display is Some <==> space is Some,
        display is Some ==> display == Some(space->0.display_index),
        window == topology@.window(id),
        space == topology@.space(id),
        display == topology@.display(id),
{
    let windows = outer_with_id(topology.windows@, id);
    let spaces = outer_spaces_with_id(topology.spaces@, id);
    select::first_set_finds_the_first(windows);
    select::first_set_finds_the_first(spaces);
    if 0 <= at < topology.windows@.len() && topology.windows@[at].id == id && (forall|i: int|
        0 <= i < at ==> (#[trigger] topology.windows@[i]).id != id) {
        assert(windows[at]);
        select::lemma_first_set(windows, at);
    }
    if 0 <= at < topology.spaces@.len() && topology.spaces@[at].id == id && (forall|i: int|
        0 <= i < at ==> (#[trigger] topology.spaces@[i]).id != id) {
        assert(spaces[at]);
        select::lemma_first_set(spaces, at);
    }
    if window is None {
        assert forall|i: int| 0 <= i < topology.windows@.len() implies (
        #[trigger] topology.windows@[i]).id != id by {
            assert(!windows[i]);
        }
    }
    if space is None {
        assert forall|i: int| 0 <= i < topology.spaces@.len() implies (
        #[trigger] topology.spaces@[i]).id != id by {
            assert(!spaces[i]);
        }
    }
}

/// The window that is named as focused has the focus wherever it is listed. Otherwise a window of an
/// active space has it that none of an active space lies in front of; of equals the smallest
/// identifier counts. There is none only where no active space shows a window.
pub proof fn the_named_or_the_frontmost_window_has_the_focus(
    topology: OuterMacosTopology,
    result: Option<OuterMacosWindow>,
    at: int,
)
    requires
        call_ensures(resolved_outer_focused_window, (&topology,), result),
        0 <= at < topology.windows@.len(),
    ensures
        result matches Some(focused) ==> topology.windows@.contains(focused),
        topology.focused_window_id == Some(topology.windows@[at].id) ==> result is Some
            && result->0.id == topology.windows@[at].id,
        (topology.focused_window_id matches Some(id) && topology@.window(id) is Some) || ({
            let other = topology.windows@[at];
            &&& result matches Some(focused) ==> topology@.space(focused.space_id) matches Some(
                space,
            ) && space.active
            &&& (topology@.space(other.space_id) matches Some(space) && space.active) ==> {
                &&& result matches Some(focused)
                &&& !snapshot::comes_before(other.order_index, focused.order_index)
                &&& other.order_index == focused.order_index ==> focused.id <= other.id
            }
        }),
{
    let model = topology@;
    let ranks = model.active_ranks();
    select::choices_are_optimal(ranks);
    if let Some(id) = model.focused_window_id {
        select::first_set_finds_the_first(outer_with_id(model.windows, id));
        if id == model.windows[at].id {
            assert(outer_with_id(model.windows, id)[at]);
        }
    }
    assert(ranks[at] is Some == model.is_active(model.windows[at].space_id));
    if let Some(found) = select::first_least(ranks) {
        assert(ranks[found] == Some(outer_active_rank(model.windows[found])));
    }
}

/// The view of the desktop keeps what the snapshot says: every space and every window stands in its
/// place with its own identifier, display, kind, owner, level, place and frame. Frames to choose from
/// are those of the ordinary windows with a frame in active spaces, in their order.
pub proof fn the_desktop_is_restated_as_it_is(
    desktop: NativeDesktopSnapshot,
    topology: OuterMacosTopology,
    at: int,
)
    requires
        call_ensures(outer_topology_from_native_snapshot, (&desktop,), topology),
    ensures
        topology.spaces@.len() == desktop.spaces@.len(),
        topology.windows@.len() == desktop.windows@.len(),
        topology.focused_window_id == desktop.focused_window_id,
        0 <= at < desktop.spaces@.len() ==> {
            let (outer, native) = (topology.spaces@[at], desktop.spaces@[at]);
            &&& outer.id == native.id
            &&& outer.display_index == native.display_index
            &&& outer.active == native.active
            &&& outer.kind == native.kind
        },
        0 <= at < desktop.windows@.len() ==> {
            let (outer, native) = (topology.windows@[at], desktop.windows@[at]);
            &&& outer.id == native.id
            &&& outer.pid == native.pid
            &&& outer.space_id == native.space_id
            &&& outer.level == native.level
            &&& outer.order_index == native.order_index
            &&& outer.bounds is Some <==> native.bounds is Some
            &&& outer.bounds matches Some(rect) ==> {
                &&& rect.x == native.bounds->0.x
                &&& rect.y == native.bounds->0.y
                &&& rect.w == native.bounds->0.width
                &&& rect.h == native.bounds->0.height
            }
        },
        topology.rects@ == desktop.windows@.filter(
            |window: NativeWindowSnapshot|
                desktop.active_space_ids@.contains(window.space_id) && window.level == 0
                    && window.bounds is Some,
        ).map_values(
            |window: NativeWindowSnapshot|
                DirectedRect {
                    id: window.id,
                    rect: Rect {
                        x: window.bounds->0.x,
                        y: window.bounds->0.y,
                        w: window.bounds->0.width,
                        h: window.bounds->0.height,
                    },
                },
        ),
        topology@.spaces == topology.spaces@,
        topology@.windows == topology.windows@,
        topology@.rects == topology.rects@,
        topology@.focused_window_id == topology.focused_window_id,
{
    let active = desktop.active_space_ids@;
    let model = outer_model(desktop);
    let keep = |window: NativeWindowSnapshot| is_tile(window, active);
    let kept = |window: NativeWindowSnapshot|
        desktop.active_space_ids@.contains(window.space_id) && window.level == 0 && window.bounds
            is Some;
    assert forall|window: NativeWindowSnapshot| #[trigger] keep(window) == kept(window) by {}
    assert(keep =~= kept);
    let framed = |window: NativeWindowSnapshot| tile_rect(window);
    let rect = |window: NativeWindowSnapshot|
        DirectedRect {
            id: window.id,
            rect: Rect {
                x: window.bounds->0.x,
                y: window.bounds->0.y,
                w: window.bounds->0.width,
                h: window.bounds->0.height,
            },
        };
    assert(framed =~= rect);
    if 0 <= at < desktop.spaces@.len() {
        assert(model.spaces[at] == outer_space_of(desktop.spaces@[at]));
    }
    if 0 <= at < desktop.windows@.len() {
        assert(model.windows[at] == outer_window_of(desktop.windows@[at]));
    }
}

/// A move chooses among the frames on the display of the focused window, all of them and in their
/// order, as long as there is one; a focus chooses among the same, and the frame of the focused
/// window itself, which comes last if it is not among them.
pub proof fn commands_choose_on_the_display_of_the_focus(
    topology: OuterMacosTopology,
    focused: OuterMacosWindow,
    display: usize,
    moved: Vec<DirectedRect>,
    reached: Vec<DirectedRect>,
    at: int,
)
    requires
        call_ensures(move_rects, (&topology, &focused), moved),
        call_ensures(focus_rects, (&topology, &focused), reached),
        topology@.display(focused.space_id) == Some(display),
        0 <= at < topology.rects@.len(),
        topology@.window(topology.rects@[at].id) matches Some(window) && topology@.display(
            window.space_id,
        ) == Some(display),
    ensures
        moved@.contains(topology.rects@[at]),
        reached@.contains(topology.rects@[at]),
        forall|i: int|
            0 <= i < moved@.len() ==> {
                &&& topology.rects@.contains(#[trigger] moved@[i])
                &&& topology@.window(moved@[i].id) matches Some(window)
                &&& topology@.display(window.space_id) == Some(display)
            },
        forall|i: int|
            0 <= i < reached@.len() ==> {
                ||| topology.rects@.contains(#[trigger] reached@[i]) && (topology@.window(
                    reached@[i].id,
                ) matches Some(window) && topology@.display(window.space_id) == Some(display))
                ||| reached@[i].id == focused.id && focused.bounds == Some(reached@[i].rect)
            },
        focused.bounds is Some ==> exists|i: int|
            0 <= i < reached@.len() && (#[trigger] reached@[i]).id == focused.id,
        moved@ == topology.rects@.filter(
            |rect: DirectedRect|
                topology@.window(rect.id) matches Some(window) && topology@.display(window.space_id)
                    == Some(display),
        ),
        reached@ == moved@ || reached@.drop_last() == moved@,
{
    let model = topology@;
    let here = |rect: DirectedRect| model.is_on_display(rect, display);
    let listed = |rect: DirectedRect|
        topology@.window(rect.id) matches Some(window) && topology@.display(window.space_id)
            == Some(display);
    assert(here =~= listed);
    let kept = model.rects.filter(here);
    select::lemma_filter_keeps(model.rects, here);
    assert(here(model.rects[at]));
    assert(kept.contains(model.rects[at]));
    assert(moved@ == kept);
    if reached@ != moved@ {
        assert(reached@.drop_last() =~= moved@);
        let own = reached@.last();
        assert(own.id == focused.id);
        let i = choose|i: int| 0 <= i < kept.len() && kept[i] == model.rects[at];
        assert(reached@[i] == model.rects[at]);
    }
}

/// Where no listed window on the display of the focused window has a frame, or its display is not
/// known, a move chooses among all frames.
pub proof fn commands_choose_anywhere_for_want_of_frames(
    topology: OuterMacosTopology,
    focused: OuterMacosWindow,
    moved: Vec<DirectedRect>,
)
    requires
        call_ensures(move_rects, (&topology, &focused), moved),
        topology@.display(focused.space_id) matches Some(display) ==> forall|i: int|
            0 <= i < topology.rects@.len() ==> !(topology@.window(
                (#[trigger] topology.rects@[i]).id,
            ) matches Some(window) && topology@.display(window.space_id) == Some(display)),
    ensures
        moved@ == topology.rects@,
{
    let model = topology@;
    if let Some(display) = model.display(focused.space_id) {
        let here = |rect: DirectedRect| model.is_on_display(rect, display);
        select::lemma_filter_count(model.rects, here);
    }
}

/// The next space towards west is the nearest before the current one in the list, and towards east
/// the nearest after it, among those on the same display that are not in the hands of Stage Manager.
/// There is none exactly if no such space lies on that side, and none lies north or south.
pub proof fn the_next_space_is_the_nearest_on_that_side(
    topology: OuterMacosTopology,
    space_id: u64,
    direction: Direction,
    result: Option<u64>,
    from: int,
    other: int,
)
    requires
        call_ensures(outer_adjacent_space_in_direction, (&topology, space_id, direction), result),
        0 <= from < topology.spaces@.len(),
        topology.spaces@[from].id == space_id,
        forall|i: int| 0 <= i < from ==> (#[trigger] topology.spaces@[i]).id != space_id,
        0 <= other < topology.spaces@.len(),
        topology.spaces@[other].display_index == topology.spaces@[from].display_index,
        topology.spaces@[other].kind !is StageManagerOpaque,
    ensures
        direction is North || direction is South ==> result is None,
        direction is West && other < from ==> result is Some,
        direction is East && from < other ==> result is Some,
        result matches Some(next) ==> exists|to: int|
            #![trigger topology.spaces@[to]]
            {
                &&& 0 <= to < topology.spaces@.len()
                &&& topology.spaces@[to].id == next
                &&& topology.spaces@[to].display_index == topology.spaces@[from].display_index
                &&& topology.spaces@[to].kind !is StageManagerOpaque
                &&& direction is West ==> to < from && (other < from ==> other <= to)
                &&& direction is East ==> from < to && (from < other ==> to <= other)
            },
{
    let model = topology@;
    let ids = outer_spaces_with_id(model.spaces, space_id);
    assert(ids[from]);
    select::lemma_first_set(ids, from);
    assert(model.is_reachable(from, other));
    if direction is West {
        let flags = model.reachable_before(from);
        select::first_set_finds_the_first(flags);
        if other < from {
            assert(flags[from - 1 - other]);
        }
        if let Some(step) = select::first_set(flags) {
            assert(flags[step]);
            assert(model.is_reachable(from, from - 1 - step));
            assert(topology.spaces@[from - 1 - step].id == result->0);
        }
    } else if direction is East {
        let flags = model.reachable_after(from);
        select::first_set_finds_the_first(flags);
        if from < other {
            assert(flags[other - from - 1]);
        }
        if let Some(step) = select::first_set(flags) {
            assert(flags[step]);
            assert(model.is_reachable(from, from + 1 + step));
            assert(topology.spaces@[from + 1 + step].id == result->0);
        }
    }
}

/// The chosen window is the target of a command unless the command leads on to the next space: then
/// there is such a space, no ordinary window of the focused window's space lies further out than the
/// focused window, and neither does the chosen one. Where all that holds of a focused window that is
/// itself an ordinary window with a frame, the command does lead on.
pub proof fn commands_lead_on_only_from_the_edge(
    topology: OuterMacosTopology,
    focused: OuterMacosWindow,
    direction: Direction,
    chosen: Option<u64>,
    result: Option<u64>,
    next: Option<u64>,
    at: int,
)
    requires
        call_ensures(
            outer_same_space_focus_target,
            (&topology, &focused, direction, chosen),
            result,
        ),
        call_ensures(
            outer_adjacent_space_in_direction,
            (&topology, focused.space_id, direction),
            next,
        ),
    ensures
        result is Some ==> result == chosen,
        chosen is Some && result is None ==> {
            &&& next is Some
            &&& focused.bounds is Some
            &&& topology@.window(chosen->0) matches Some(target)
            &&& target.bounds is Some
            &&& topology::reach(direction, target.bounds->0) <= topology::reach(
                direction,
                focused.bounds->0,
            )
            &&& 0 <= at < topology.windows@.len() && topology.windows@[at].space_id
                == focused.space_id && topology.windows@[at].level == 0
                && topology.windows@[at].bounds is Some ==> topology::reach(
                direction,
                topology.windows@[at].bounds->0,
            ) <= topology::reach(direction, focused.bounds->0)
        },
        chosen is Some && next is Some && focused.level == 0 && focused.bounds is Some && (0 <= at
            < topology.windows@.len() && topology.windows@[at] == focused) && (topology@.window(
            chosen->0,
        ) matches Some(target) && target.bounds is Some && topology::reach(
            direction,
            target.bounds->0,
        ) <= topology::reach(direction, focused.bounds->0)) && (forall|i: int|
            0 <= i < topology.windows@.len() && (#[trigger] topology.windows@[i]).space_id
                == focused.space_id && topology.windows@[i].level == 0 && topology.windows@[i].bounds
                is Some ==> topology::reach(direction, topology.windows@[i].bounds->0)
                <= topology::reach(direction, focused.bounds->0)) ==> result is None,
{
    let model = topology@;
    if 0 <= at < model.windows.len() {
        assert(model.is_framed(at, focused.space_id) == (model.windows[at].space_id
            == focused.space_id && model.windows[at].level == 0 && model.windows[at].bounds
            is Some));
    }
    assert forall|i: int| 0 <= i < model.windows.len() implies #[trigger] model.is_framed(
        i,
        focused.space_id,
    ) == (topology.windows@[i].space_id == focused.space_id && topology.windows@[i].level == 0
        && topology.windows@[i].bounds is Some) by {}
}

/// A move swaps the focused window with the window that is its target, each with its own frame, and
/// fails for want of a frame, the focused window's first; without a target it takes the focused
/// window to the next space. A focus goes to the target or to the next space. Without a focused
/// window neither does anything.
pub proof fn targets_are_what_was_chosen(
    topology: OuterMacosTopology,
    direction: Direction,
    chosen: Option<u64>,
    focused: Option<OuterMacosWindow>,
    kept: Option<u64>,
    focus: Result<FocusTarget, DesktopError>,
    moved: Result<MoveTarget, DesktopError>,
)
    requires
        call_ensures(resolved_outer_focused_window, (&topology,), focused),
        focused matches Some(window) ==> call_ensures(
            outer_same_space_focus_target,
            (&topology, &window, direction, chosen),
            kept,
        ),
        call_ensures(
            select_focus_target_from_outer_topology,
            (&topology, direction, chosen),
            focus,
        ),
        call_ensures(select_move_target_from_outer_topology, (&topology, direction, chosen), moved),
    ensures
        focused is None ==> focus == Err::<FocusTarget, DesktopError>(DesktopError::NoFocusedWindow)
            && moved == Err::<MoveTarget, DesktopError>(DesktopError::NoFocusedWindow),
        focused is Some && kept is Some ==> focus == Ok::<FocusTarget, DesktopError>(
            FocusTarget::SameSpace { window_id: kept->0 },
        ),
        focused is Some && kept is Some ==> match topology@.window(kept->0) {
            Some(target) if focused->0.bounds is Some && target.bounds is Some => moved == Ok::<
                MoveTarget,
                DesktopError,
            >(
                MoveTarget::NeighborSwap {
                    source_window_id: focused->0.id,
                    source_frame: focused->0.bounds->0,
                    target_window_id: kept->0,
                    target_frame: target.bounds->0,
                },
            ),
            _ => moved == Err::<MoveTarget, DesktopError>(
                DesktopError::Operation(
                    MacosNativeOperationError::MissingWindowFrame(
                        if focused->0.bounds is None {
                            focused->0.id
                        } else {
                            kept->0
                        },
                    ),
                ),
            ),
        },
        focused is Some && kept is None ==> {
            let next = topology@.adjacent_space(focused->0.space_id, direction);
            &&& focus matches Ok(target) ==> next is Some && target == (FocusTarget::CrossSpace {
                target_space_id: next->0,
            })
            &&& moved matches Ok(target) ==> next is Some && target == (MoveTarget::CrossSpace {
                window_id: focused->0.id,
                target_space_id: next->0,
            })
            &&& (next is Some && topology@.space(next->0) is Some && !(topology@.space(
                next->0,
            )->0.kind is StageManagerOpaque)) ==> focus is Ok && moved is Ok
            &&& (next is Some && topology@.space(next->0) is Some && topology@.space(
                next->0,
            )->0.kind is StageManagerOpaque) ==> {
                let refused = DesktopError::Operation(
                    MacosNativeOperationError::UnsupportedStageManagerSpace(next->0),
                );
                focus == Err::<FocusTarget, DesktopError>(refused) && moved == Err::<
                    MoveTarget,
                    DesktopError,
                >(refused)
            }
            &&& next is None ==> focus == Err::<FocusTarget, DesktopError>(
                DesktopError::Operation(
                    MacosNativeOperationError::NoDirectionalFocusTarget(
                        types::native_direction(direction),
                    ),
                ),
            ) && moved == Err::<MoveTarget, DesktopError>(
                DesktopError::Operation(
                    MacosNativeOperationError::NoDirectionalMoveTarget(
                        types::native_direction(direction),
                    ),
                ),
            )
        },
{
}

/// The focused window lies at the edge exactly if it has a frame, no ordinary window of its space
/// reaches further out, and some ordinary window of its space reaches as far.
pub proof fn the_edge_is_where_no_window_reaches_further(
    topology: OuterMacosTopology,
    focused: OuterMacosWindow,
    direction: Direction,
    result: bool,
    at: int,
    as_far: int,
)
    requires
        call_ensures(
            outer_focused_window_is_on_outer_edge,
            (&topology, &focused, direction),
            result,
        ),
        0 <= at < topology.windows@.len(),
        0 <= as_far < topology.windows@.len(),
    ensures
        result ==> focused.bounds is Some,
        result && topology.windows@[at].space_id == focused.space_id && topology.windows@[at].level
            == 0 && topology.windows@[at].bounds is Some ==> topology::reach(
            direction,
            topology.windows@[at].bounds->0,
        ) <= topology::reach(direction, focused.bounds->0),
        focused.bounds is Some && topology.windows@[as_far].space_id == focused.space_id
            && topology.windows@[as_far].level == 0 && topology.windows@[as_far].bounds is Some
            && topology::reach(direction, topology.windows@[as_far].bounds->0) == topology::reach(
            direction,
            focused.bounds->0,
        ) && (forall|i: int|
            0 <= i < topology.windows@.len() && (#[trigger] topology.windows@[i]).space_id
                == focused.space_id && topology.windows@[i].level == 0 && topology.windows@[i].bounds
                is Some ==> topology::reach(direction, topology.windows@[i].bounds->0)
                <= topology::reach(direction, focused.bounds->0)) ==> result,
        result ==> exists|i: int|
            0 <= i < topology.windows@.len() && (#[trigger] topology.windows@[i]).space_id
                == focused.space_id && topology.windows@[i].level == 0 && topology.windows@[i].bounds
                is Some && topology::reach(direction, topology.windows@[i].bounds->0)
                == topology::reach(direction, focused.bounds->0),
{
    let model = topology@;
    assert(model.is_framed(at, focused.space_id) <==> topology.windows@[at].space_id
        == focused.space_id && topology.windows@[at].level == 0 && topology.windows@[at].bounds
        is Some);
    assert(model.is_framed(as_far, focused.space_id) <==> topology.windows@[as_far].space_id
        == focused.space_id && topology.windows@[as_far].level == 0
        && topology.windows@[as_far].bounds is Some);
    if result {
        let i = choose|i: int|
            0 <= i < model.windows.len() && #[trigger] model.is_framed(i, focused.space_id)
                && topology::reach(direction, model.windows[i].bounds->0) == topology::reach(
                direction,
                focused.bounds->0,
            );
        assert(topology.windows@[i].space_id == focused.space_id);
    }
}

/// A command escapes to the next space exactly if there is one, the focused window lies at the edge,
/// and the chosen window has a frame that does not reach past it. A window that is kept is swapped
/// with only if both have a frame.
pub proof fn commands_escape_at_the_edge(
    topology: OuterMacosTopology,
    focused: OuterMacosWindow,
    direction: Direction,
    target_id: u64,
    target: Option<OuterMacosWindow>,
    next: Option<u64>,
    edge: bool,
    result: bool,
    swap: Result<Option<MoveTarget>, DesktopError>,
)
    requires
        call_ensures(outer_window, (&topology, target_id), target),
        call_ensures(
            outer_adjacent_space_in_direction,
            (&topology, focused.space_id, direction),
            next,
        ),
        call_ensures(
            outer_focused_window_is_on_outer_edge,
            (&topology, &focused, direction),
            edge,
        ),
        call_ensures(
            outer_should_escape_to_adjacent_space,
            (&topology, &focused, direction, target_id),
            result,
        ),
        call_ensures(
            outer_same_space_move_target,
            (&topology, &focused, direction, Some(target_id)),
            swap,
        ),
    ensures
        result <==> next is Some && edge && target is Some && target->0.bounds is Some
            && topology::reach(direction, target->0.bounds->0) <= topology::reach(
            direction,
            focused.bounds->0,
        ),
        result ==> swap == Ok::<Option<MoveTarget>, DesktopError>(None),
        !result && focused.bounds is Some && target is Some && target->0.bounds is Some ==> swap
            == Ok::<Option<MoveTarget>, DesktopError>(
            Some(
                MoveTarget::NeighborSwap {
                    source_window_id: focused.id,
                    source_frame: focused.bounds->0,
                    target_window_id: target_id,
                    target_frame: target->0.bounds->0,
                },
            ),
        ),
        !result && focused.bounds is None ==> swap == Err::<Option<MoveTarget>, DesktopError>(
            DesktopError::Operation(MacosNativeOperationError::MissingWindowFrame(focused.id)),
        ),
        !result && focused.bounds is Some && (target is None || target->0.bounds is None) ==> swap
            == Err::<Option<MoveTarget>, DesktopError>(
            DesktopError::Operation(MacosNativeOperationError::MissingWindowFrame(target_id)),
        ),
{
}

} // verus!
